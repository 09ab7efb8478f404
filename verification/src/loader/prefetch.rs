//! Prefetching of many layers: their weights are placed one after the other, each with its
//! scales right behind.
use crate::error::{invalid_plan, AegisError, Values};
use crate::host_arena::PinnedArena;
use crate::loader::nvfp4;
use crate::loader::storage::{self, place_packed_scales_contiguous, Buffering, ShardCache};
use crate::loader::tensors::{self, ModelArtifact, TensorInfo};
use crate::loader::CudaWeightLoader;
use crate::text::same_text;
use crate::types::HostWeightBytes;
use vstd::prelude::*;

verus! {

/// A layer's weights and scales in a checkpoint.
#[derive(Clone, Copy, Debug)]
pub struct TensorPair<'a> {
    pub packed: &'a TensorInfo,
    pub scales: &'a TensorInfo,
}

/// The error for the first tensor that is missing, if one is.
pub open spec fn missing_tensor(artifact: &ModelArtifact, prefixes: Seq<String>) -> Option<AegisError>
    decreases prefixes.len(),
{
    if prefixes.len() == 0 {
        None
    } else if artifact.spec_weight(&prefixes[0]) is Err {
        Some(artifact.spec_weight(&prefixes[0])->Err_0)
    } else if artifact.spec_weight_scale(&prefixes[0]) is Err {
        Some(artifact.spec_weight_scale(&prefixes[0])->Err_0)
    } else {
        missing_tensor(artifact, prefixes.drop_first())
    }
}

/// The pair belongs to the layer.
pub open spec fn is_pair(artifact: &ModelArtifact, prefix: &String, pair: TensorPair<'_>) -> bool {
    &&& artifact.spec_weight(prefix) == Ok::<_, AegisError>(*pair.packed)
    &&& artifact.spec_weight_scale(prefix) == Ok::<_, AegisError>(*pair.scales)
}

/// Weights and scales of the layers, in their order; the first that is missing is reported.
pub fn gather_pairs<'a>(artifact: &'a ModelArtifact, prefixes: &Vec<String>) -> (pairs: Result<
    Vec<TensorPair<'a>>,
    AegisError,
>)
    ensures
        match pairs {
            Ok(pairs) => {
                &&& missing_tensor(artifact, prefixes@) is None
                &&& pairs@.len() == prefixes@.len()
                &&& forall|i: int|
                    0 <= i < prefixes@.len() ==> is_pair(
                        artifact,
                        &prefixes@[i],
                        #[trigger] pairs@[i],
                    )
            },
            Err(error) => missing_tensor(artifact, prefixes@) == Some(error),
        },
{
    let mut pairs: Vec<TensorPair<'a>> = Vec::new();
    let mut i: usize = 0;
    assert(prefixes@.skip(0) =~= prefixes@);
    while i < prefixes.len()
        invariant
            i <= prefixes@.len(),
            pairs@.len() == i,
            missing_tensor(artifact, prefixes@.skip(i as int)) == missing_tensor(
                artifact,
                prefixes@,
            ),
            forall|k: int|
                0 <= k < i ==> is_pair(artifact, &prefixes@[k], #[trigger] pairs@[k]),
        decreases prefixes@.len() - i,
    {
        assert(prefixes@.skip(i as int).drop_first() =~= prefixes@.skip(i + 1));
        let packed = artifact.weight(&prefixes[i])?;
        let scales = artifact.weight_scale(&prefixes[i])?;
        pairs.push(TensorPair { packed, scales });
        i += 1;
    }
    Ok(pairs)
}

/// All tensors are in the same file.
pub open spec fn share_a_shard(pairs: Seq<TensorPair<'_>>) -> bool {
    pairs.len() > 0 && forall|i: int|
        0 <= i < pairs.len() ==> (#[trigger] pairs[i]).packed.shard_path@
            == pairs[0].packed.shard_path@ && pairs[i].scales.shard_path@
            == pairs[0].packed.shard_path@
}

/// The file that all tensors are in, if it is one.
pub fn shared_shard<'a>(pairs: &Vec<TensorPair<'a>>) -> (path: Option<&'a str>)
    ensures
        path is Some <==> share_a_shard(pairs@),
        path matches Some(path) ==> path@ == pairs@[0].packed.shard_path@,
{
    if pairs.len() == 0 {
        return None;
    }
    let path: &'a str = pairs[0].packed.shard_path.as_str();
    let mut i: usize = 0;
    while i < pairs.len()
        invariant
            i <= pairs@.len(),
            0 < pairs@.len(),
            path@ == pairs@[0].packed.shard_path@,
            forall|k: int|
                0 <= k < i ==> (#[trigger] pairs@[k]).packed.shard_path@ == path@
                    && pairs@[k].scales.shard_path@ == path@,
        decreases pairs@.len() - i,
    {
        if !same_text(pairs[i].packed.shard_path.as_str(), path) || !same_text(
            pairs[i].scales.shard_path.as_str(),
            path,
        ) {
            return None;
        }
        i += 1;
    }
    Some(path)
}

/// Bytes of the first `n` pairs.
pub open spec fn pair_bytes(pairs: Seq<TensorPair<'_>>, n: int) -> int
    decreases n,
{
    if n <= 0 {
        0
    } else {
        pair_bytes(pairs, n - 1) + pairs[n - 1].packed.data_len_bytes
            + pairs[n - 1].scales.data_len_bytes
    }
}

/// The places of a pair that starts at `offset`: the scales follow the weights.
pub open spec fn placed_pair(pair: TensorPair<'_>, offset: int) -> (HostWeightBytes, HostWeightBytes) {
    (
        HostWeightBytes::Arena { offset: offset as usize, len: pair.packed.data_len_bytes },
        HostWeightBytes::Arena {
            offset: (offset + pair.packed.data_len_bytes) as usize,
            len: pair.scales.data_len_bytes,
        },
    )
}

/// Places pairs into the arena, one after the other.
pub fn place_pairs(
    arena: &mut PinnedArena,
    pairs: &Vec<TensorPair<'_>>,
) -> (placed: Result<Vec<(HostWeightBytes, HostWeightBytes)>, AegisError>)
    requires
        old(arena).wf(),
        forall|i: int|
            0 <= i < pairs@.len() ==> (#[trigger] pairs@[i]).packed.data_len_bytes
                + pairs@[i].scales.data_len_bytes <= usize::MAX,
    ensures
        final(arena).wf(),
        final(arena).spec_capacity() == old(arena).spec_capacity(),
        match placed {
            Ok(placed) => {
                &&& placed@ == Seq::new(
                    pairs@.len(),
                    |i: int|
                        placed_pair(pairs@[i], old(arena).spec_used() + pair_bytes(pairs@, i)),
                )
                &&& final(arena).spec_used() == old(arena).spec_used() + pair_bytes(
                    pairs@,
                    pairs@.len() as int,
                )
            },
            Err(error) => exists|n: int|
                {
                    let bytes = pairs@[n].packed.data_len_bytes + pairs@[n].scales.data_len_bytes;
                    &&& 0 <= n < pairs@.len()
                    &&& final(arena).spec_used() == old(arena).spec_used() + #[trigger] pair_bytes(
                        pairs@,
                        n,
                    )
                    &&& final(arena).spec_used() + bytes > final(arena).spec_capacity()
                    &&& error == nvfp4::full_arena(*final(arena), bytes)
                },
        },
{
    let mut placed: Vec<(HostWeightBytes, HostWeightBytes)> = Vec::new();
    let mut i: usize = 0;
    while i < pairs.len()
        invariant
            i <= pairs@.len(),
            arena.wf(),
            arena.spec_capacity() == old(arena).spec_capacity(),
            arena.spec_used() == old(arena).spec_used() + pair_bytes(pairs@, i as int),
            placed@ == Seq::new(
                i as nat,
                |k: int| placed_pair(pairs@[k], old(arena).spec_used() + pair_bytes(pairs@, k)),
            ),
            forall|k: int|
                0 <= k < pairs@.len() ==> (#[trigger] pairs@[k]).packed.data_len_bytes
                    + pairs@[k].scales.data_len_bytes <= usize::MAX,
        decreases pairs@.len() - i,
    {
        assert(pairs@[i as int].packed.data_len_bytes + pairs@[i as int].scales.data_len_bytes
            <= usize::MAX);
        let pair = place_packed_scales_contiguous(
            arena,
            pairs[i].packed.data_len_bytes,
            pairs[i].scales.data_len_bytes,
        )?;
        placed.push(pair);
        i += 1;
        assert(placed@ =~= Seq::new(
            i as nat,
            |k: int| placed_pair(pairs@[k], old(arena).spec_used() + pair_bytes(pairs@, k)),
        ));
    }
    Ok(placed)
}

/// What is to be read for a prefetch, and where it goes.
#[derive(Debug)]
pub struct Prefetched {
    /// Where all tensors are in one file: whether to read that file as a whole.
    pub buffering: Option<Buffering>,
    /// The places of weights and scales, in the order of the layers.
    pub places: Vec<(HostWeightBytes, HostWeightBytes)>,
}

/// Whether the file that all tensors are in is to be read as a whole.
pub open spec fn buffering_of(
    held: Option<Seq<char>>,
    path: Seq<char>,
    shard_len: Result<u64, AegisError>,
    available: Option<u64>,
) -> Result<Buffering, AegisError> {
    if held == Some(path) {
        Ok(Buffering::Reuse)
    } else {
        match shard_len {
            Ok(len) => Ok(
                if storage::has_room(len as int, available) {
                    Buffering::Read
                } else {
                    Buffering::Decline
                },
            ),
            Err(error) => Err(error),
        }
    }
}

impl CudaWeightLoader<'_> {
    /// Plans the prefetch of layers: whether the file they are in is read as a whole, and
    /// where each goes. `shard_len` is what asking for the length of that file came to,
    /// `available` the host memory that is free, as far as it is known.
    pub fn prefetch_host_nvfp4_pairs_par(
        &mut self,
        artifact: &ModelArtifact,
        prefixes: &Vec<String>,
        shard_len: Result<u64, AegisError>,
        available: Option<u64>,
    ) -> (answer: Result<Prefetched, AegisError>)
        requires
            old(self).wf(),
            shard_len matches Ok(len) ==> 2 * len + storage::SHARD_MARGIN <= u64::MAX,
            forall|i: int, j: int|
                0 <= i < artifact.tensors@.len() && 0 <= j < artifact.tensors@.len() ==> (
                #[trigger] artifact.tensors@[i]).data_len_bytes + (
                #[trigger] artifact.tensors@[j]).data_len_bytes <= usize::MAX,
        ensures
            final(self).wf(),
            final(self).runtime == old(self).runtime,
            old(self).arena is None ==> answer == Err::<Prefetched, _>(
                AegisError::invalid(
                    "prefetch_host_nvfp4_pairs_par requires loader built with weight_loader_with_arena",
                ),
            ) && final(self).arena is None,
            old(self).arena is Some && missing_tensor(artifact, prefixes@) is Some ==> answer
                == Err::<Prefetched, _>(missing_tensor(artifact, prefixes@)->Some_0)
                && final(self).arena == old(self).arena,
            old(self).arena is Some && missing_tensor(artifact, prefixes@) is None ==> exists|
                pairs: Seq<TensorPair<'_>>,
            |
                pairs.len() == prefixes@.len() && (forall|i: int|
                    0 <= i < prefixes@.len() ==> is_pair(
                        artifact,
                        &prefixes@[i],
                        #[trigger] pairs[i],
                    )) && #[trigger] prefetched(
                    *old(self),
                    *final(self),
                    pairs,
                    shard_len,
                    available,
                    answer,
                ),
    {
        let mut taken: Option<PinnedArena> = None;
        if self.arena.is_none() {
            return Err(
                invalid_plan(
                    "prefetch_host_nvfp4_pairs_par requires loader built with weight_loader_with_arena",
                    Values::Zero,
                ),
            );
        }
        let pairs = gather_pairs(artifact, prefixes)?;
        proof {
            assert forall|i: int| 0 <= i < pairs@.len() implies (
            #[trigger] pairs@[i]).packed.data_len_bytes + pairs@[i].scales.data_len_bytes
                <= usize::MAX by {
                assert(is_pair(artifact, &prefixes@[i], pairs@[i]));
                lemma_found(artifact, &prefixes@[i], ".weight"@, "missing `{}.weight`");
                lemma_found(artifact, &prefixes@[i], ".weight_scale"@, "missing `{}.weight_scale`");
            }
        }
        let mut buffering: Option<Buffering> = None;
        match shared_shard(&pairs) {
            Some(path) => {
                if self.shards.holds(path) {
                    buffering = Some(Buffering::Reuse);
                } else {
                    match shard_len {
                        Ok(len) => {
                            buffering =
                            Some(self.shards.ensure_shard_buffered(path, len, available));
                        },
                        Err(error) => {
                            self.shards = ShardCache::new();
                            assert(prefetched(
                                *old(self),
                                *self,
                                pairs@,
                                shard_len,
                                available,
                                Err::<Prefetched, _>(error),
                            ));
                            return Err(error);
                        },
                    }
                }
            },
            None => {},
        }
        core::mem::swap(&mut taken, &mut self.arena);
        let answer = match taken {
            Some(arena) => {
                let mut arena = arena;
                let placed = place_pairs(&mut arena, &pairs);
                self.arena = Some(arena);
                match placed {
                    Ok(places) => Ok(Prefetched { buffering, places }),
                    Err(error) => Err(error),
                }
            },
            None => Ok(Prefetched { buffering, places: Vec::new() }),
        };
        assert(prefetched(*old(self), *self, pairs@, shard_len, available, answer));
        answer
    }
}

proof fn lemma_found(
    artifact: &ModelArtifact,
    prefix: &String,
    suffix: Seq<char>,
    missing: &'static str,
)
    ensures
        artifact.spec_require(prefix, suffix, missing) matches Ok(tensor) ==> exists|i: int|
            0 <= i < artifact.tensors@.len() && #[trigger] artifact.tensors@[i] == tensor,
{
    tensors::place_is_within(artifact.tensors@, prefix@ + suffix);
    match tensors::place_of(artifact.tensors@, prefix@ + suffix) {
        Some(i) => {
            assert(artifact.tensors@[i] == artifact.tensors@[i]);
        },
        None => {},
    }
}

/// What a prefetch comes to once the tensors are found.
pub open spec fn prefetched(
    before: CudaWeightLoader<'_>,
    after: CudaWeightLoader<'_>,
    pairs: Seq<TensorPair<'_>>,
    shard_len: Result<u64, AegisError>,
    available: Option<u64>,
    answer: Result<Prefetched, AegisError>,
) -> bool {
    let path = pairs[0].packed.shard_path@;
    let buffering = buffering_of(before.shards.spec_held(), path, shard_len, available);
    if share_a_shard(pairs) && buffering is Err {
        &&& answer == Err::<Prefetched, _>(buffering->Err_0)
        &&& after.arena == before.arena
        &&& after.shards.spec_held() is None
    } else {
        &&& before.arena matches Some(arena)
        &&& after.arena matches Some(grown)
        &&& grown.spec_capacity() == arena.spec_capacity()
        &&& after.shards.spec_held() == if share_a_shard(pairs) && buffering->Ok_0
            != Buffering::Reuse {
            None
        } else {
            before.shards.spec_held()
        }
        &&& match answer {
            Ok(answer) => {
                &&& answer.buffering == if share_a_shard(pairs) {
                    Some(buffering->Ok_0)
                } else {
                    None
                }
                &&& answer.places@ == Seq::new(
                    pairs.len(),
                    |i: int| placed_pair(pairs[i], arena.spec_used() + pair_bytes(pairs, i)),
                )
                &&& grown.spec_used() == arena.spec_used() + pair_bytes(pairs, pairs.len() as int)
            },
            Err(error) => exists|n: int|
                {
                    let bytes = pairs[n].packed.data_len_bytes + pairs[n].scales.data_len_bytes;
                    &&& 0 <= n < pairs.len()
                    &&& grown.spec_used() == arena.spec_used() + #[trigger] pair_bytes(pairs, n)
                    &&& grown.spec_used() + bytes > grown.spec_capacity()
                    &&& error == nvfp4::full_arena(grown, bytes)
                },
        }
    }
}

} // verus!
