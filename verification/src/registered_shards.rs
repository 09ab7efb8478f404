//! Which mapped weight files are page-locked.
use crate::owned_pinned::{self, round_to_pages};
use vstd::prelude::*;

verus! {

/// The files that are locked, by their place in the list that was gone through.
#[derive(Debug)]
pub struct RegisteredShards {
    pub shards: Vec<usize>,
    pub total_bytes: usize,
}

/// The bytes to lock of a file: none where it is not mapped or empty.
pub open spec fn locked_bytes(len: Option<usize>, page_size: int) -> int {
    match len {
        Some(len) => owned_pinned::whole_pages(len as int, page_size),
        None => 0,
    }
}

/// Whether a file is locked: it is mapped, it is not empty, and the driver took it.
pub open spec fn is_locked(len: Option<usize>, accepted: bool) -> bool {
    accepted && len is Some && len->Some_0 > 0
}

/// The places of the files that are locked, in order.
pub open spec fn locked_shards(lens: Seq<Option<usize>>, accepted: Seq<bool>) -> Seq<usize>
    decreases lens.len(),
{
    if lens.len() == 0 {
        Seq::empty()
    } else {
        let before = locked_shards(lens.drop_last(), accepted.drop_last());
        if is_locked(lens.last(), accepted.last()) {
            before.push((lens.len() - 1) as usize)
        } else {
            before
        }
    }
}

/// The bytes that are locked in all.
pub open spec fn locked_total(lens: Seq<Option<usize>>, accepted: Seq<bool>, page_size: int) -> int
    decreases lens.len(),
{
    if lens.len() == 0 {
        0
    } else {
        locked_total(lens.drop_last(), accepted.drop_last(), page_size) + (if is_locked(
            lens.last(),
            accepted.last(),
        ) {
            locked_bytes(lens.last(), page_size)
        } else {
            0
        })
    }
}

/// The bytes to lock of a mapped file, if there are any.
pub fn shard_span(len: Option<usize>, page_size: usize) -> (bytes: Option<usize>)
    requires
        page_size > 0,
        locked_bytes(len, page_size as int) <= usize::MAX,
    ensures
        bytes == if len is Some && len->Some_0 > 0 {
            Some(locked_bytes(len, page_size as int) as usize)
        } else {
            None
        },
{
    match len {
        Some(len) => if len == 0 {
            None
        } else {
            Some(round_to_pages(len, page_size))
        },
        None => None,
    }
}

proof fn lemma_total_grows(lens: Seq<Option<usize>>, accepted: Seq<bool>, page_size: int, n: int)
    requires
        page_size > 0,
        lens.len() == accepted.len(),
        0 <= n <= lens.len(),
    ensures
        0 <= locked_total(lens.take(n), accepted.take(n), page_size) <= locked_total(
            lens,
            accepted,
            page_size,
        ),
    decreases lens.len(),
{
    if lens.len() == 0 {
        assert(lens.take(n) =~= lens && accepted.take(n) =~= accepted);
    } else {
        let fewer = lens.drop_last();
        let taken = accepted.drop_last();
        match lens.last() {
            Some(len) => {
                crate::runtime::lemma_blocks(len as int, page_size);
            },
            None => {},
        }
        if n < lens.len() {
            lemma_total_grows(fewer, taken, page_size, n);
            assert(fewer.take(n) =~= lens.take(n));
            assert(taken.take(n) =~= accepted.take(n));
        } else {
            lemma_total_grows(fewer, taken, page_size, n - 1);
            assert(lens.take(n) =~= lens && accepted.take(n) =~= accepted);
            assert(fewer.take(n - 1) =~= fewer && taken.take(n - 1) =~= taken);
        }
    }
}

impl RegisteredShards {
    /// No file is locked.
    pub fn empty() -> (shards: Self)
        ensures
            shards.shards@.len() == 0,
            shards.total_bytes == 0,
    {
        RegisteredShards { shards: Vec::new(), total_bytes: 0 }
    }

    /// Goes through files of the given lengths, none where a file is not mapped; `accepted`
    /// says which of them the driver locked. The others are left out.
    pub fn register(
        lens: &Vec<Option<usize>>,
        page_size: usize,
        accepted: &Vec<bool>,
    ) -> (shards: Self)
        requires
            page_size > 0,
            lens@.len() == accepted@.len(),
            locked_total(lens@, accepted@, page_size as int) <= usize::MAX,
            forall|i: int|
                0 <= i < lens@.len() ==> locked_bytes(#[trigger] lens@[i], page_size as int)
                    <= usize::MAX,
        ensures
            shards.shards@ == locked_shards(lens@, accepted@),
            shards.total_bytes == locked_total(lens@, accepted@, page_size as int),
    {
        let mut shards: Vec<usize> = Vec::new();
        let mut total_bytes: usize = 0;
        let mut i: usize = 0;
        assert(lens@.take(0) =~= Seq::empty());
        while i < lens.len()
            invariant
                i <= lens@.len(),
                page_size > 0,
                lens@.len() == accepted@.len(),
                locked_total(lens@, accepted@, page_size as int) <= usize::MAX,
                forall|k: int|
                    0 <= k < lens@.len() ==> locked_bytes(#[trigger] lens@[k], page_size as int)
                        <= usize::MAX,
                shards@ == locked_shards(lens@.take(i as int), accepted@.take(i as int)),
                total_bytes == locked_total(
                    lens@.take(i as int),
                    accepted@.take(i as int),
                    page_size as int,
                ),
            decreases lens@.len() - i,
        {
            proof {
                lemma_total_grows(lens@, accepted@, page_size as int, i + 1);
                assert(lens@.take(i + 1).drop_last() =~= lens@.take(i as int));
                assert(accepted@.take(i + 1).drop_last() =~= accepted@.take(i as int));
            }
            match shard_span(lens[i], page_size) {
                Some(bytes) => {
                    if accepted[i] {
                        total_bytes += bytes;
                        shards.push(i);
                    }
                },
                None => {},
            }
            i += 1;
        }
        assert(lens@.take(i as int) =~= lens@);
        assert(accepted@.take(i as int) =~= accepted@);
        RegisteredShards { shards, total_bytes }
    }

    /// Number of files that are locked.
    pub fn len(&self) -> (n: usize)
        ensures
            n == self.shards@.len(),
    {
        self.shards.len()
    }
}

} // verus!
