//! Expert weights that are kept in device memory, in one allocation.
//!
//! Entries are placed one after the other, in the order they come, until the allocation is
//! full. An entry is the packed weights followed by their scales.
use crate::error::{invalid_plan, number, AegisError, Value, Values};
use crate::launch::{Engine, Operand, Plan, Region, Step, StepView};
use crate::text::same_text;
use crate::types::{DeviceBuffer, DeviceNvfp4Linear};
use vstd::prelude::*;

verus! {

/// Where an expert's weights and scales are in the cache.
#[derive(Clone, Copy, Debug, PartialEq, Eq, Structural)]
pub struct CacheEntry {
    pub packed_offset: usize,
    pub packed_bytes: usize,
    pub scales_offset: usize,
    pub scales_bytes: usize,
}

impl CacheEntry {
    /// The scales follow the weights.
    pub open spec fn wf(self) -> bool {
        self.packed_offset + self.packed_bytes == self.scales_offset
    }

    /// The end of the entry.
    pub open spec fn end(self) -> int {
        self.scales_offset + self.scales_bytes
    }

    /// The entries have no byte in common.
    pub open spec fn disjoint(self, other: CacheEntry) -> bool {
        self.end() <= other.packed_offset || other.end() <= self.packed_offset
    }

    /// The entry of the given sizes that starts at `offset`.
    pub open spec fn placed(offset: int, packed_bytes: int, scales_bytes: int) -> CacheEntry {
        CacheEntry {
            packed_offset: offset as usize,
            packed_bytes: packed_bytes as usize,
            scales_offset: (offset + packed_bytes) as usize,
            scales_bytes: scales_bytes as usize,
        }
    }
}

/// The cache of one device.
#[derive(Debug)]
pub struct VramExpertCache {
    buffer: DeviceBuffer<u8>,
    capacity_bytes: usize,
    used_bytes: usize,
    names: Vec<String>,
    entries: Vec<CacheEntry>,
}

impl View for VramExpertCache {
    type V = Map<Seq<char>, CacheEntry>;

    /// The entries by name.
    closed spec fn view(&self) -> Map<Seq<char>, CacheEntry> {
        Map::new(
            |name: Seq<char>| exists|i: int| 0 <= i < self.names@.len() && #[trigger] self.names@[i]@ == name,
            |name: Seq<char>| self.entries@[self.place_of(name)],
        )
    }
}

impl VramExpertCache {
    spec fn place_of(&self, name: Seq<char>) -> int {
        choose|i: int| 0 <= i < self.names@.len() && #[trigger] self.names@[i]@ == name
    }

    /// Number of bytes of the allocation.
    pub closed spec fn spec_capacity_bytes(&self) -> usize {
        self.capacity_bytes
    }

    /// Number of bytes that entries were placed in.
    pub closed spec fn spec_used_bytes(&self) -> usize {
        self.used_bytes
    }

    /// Every entry lies within the bytes that count as used, with its scales after its
    /// weights, and no two entries share a byte.
    pub open spec fn apart(&self) -> bool {
        &&& self.spec_used_bytes() <= self.spec_capacity_bytes()
        &&& forall|name: Seq<char>| #[trigger]
            self@.contains_key(name) ==> self@[name].wf() && self@[name].end()
                <= self.spec_used_bytes()
        &&& forall|a: Seq<char>, b: Seq<char>|
            #![trigger self@.contains_key(a), self@.contains_key(b)]
            self@.contains_key(a) && self@.contains_key(b) && a != b ==> self@[a].disjoint(self@[b])
    }

    /// The invariant of the cache.
    pub closed spec fn wf(&self) -> bool {
        &&& self.buffer.len() == self.capacity_bytes
        &&& self.used_bytes <= self.capacity_bytes
        &&& self.names@.len() == self.entries@.len()
        &&& forall|i: int, j: int|
            0 <= i < j < self.names@.len() ==> (#[trigger] self.names@[i])@ != (
            #[trigger] self.names@[j])@
        &&& forall|i: int|
            0 <= i < self.entries@.len() ==> (#[trigger] self.entries@[i]).wf()
                && self.entries@[i].end() <= self.used_bytes
        &&& forall|i: int, j: int|
            0 <= i < j < self.entries@.len() ==> (#[trigger] self.entries@[i]).disjoint(
                #[trigger] self.entries@[j],
            )
    }

    proof fn lemma_place(&self, i: int)
        requires
            self.wf(),
            0 <= i < self.names@.len(),
        ensures
            self.place_of(self.names@[i]@) == i,
            self@.contains_key(self.names@[i]@),
            self@[self.names@[i]@] == self.entries@[i],
    {
        let name = self.names@[i]@;
        let p = self.place_of(name);
        assert(0 <= p < self.names@.len() && self.names@[p]@ == name);
        if p < i {
            assert(self.names@[p]@ != self.names@[i]@);
        } else if i < p {
            assert(self.names@[i]@ != self.names@[p]@);
        }
    }

    proof fn lemma_apart(&self)
        requires
            self.wf(),
        ensures
            self.apart(),
    {
        assert forall|name: Seq<char>| #[trigger] self@.contains_key(name) implies self@[name].wf()
            && self@[name].end() <= self.spec_used_bytes() by {
            let p = self.place_of(name);
            assert(self.entries@[p].wf());
        }
        assert forall|a: Seq<char>, b: Seq<char>|
            #![trigger self@.contains_key(a), self@.contains_key(b)]
            self@.contains_key(a) && self@.contains_key(b) && a != b implies self@[a].disjoint(
            self@[b],
        ) by {
            let p = self.place_of(a);
            let q = self.place_of(b);
            if p < q {
                assert(self.entries@[p].disjoint(self.entries@[q]));
            } else {
                assert(self.entries@[q].disjoint(self.entries@[p]));
            }
        }
    }

    /// The empty cache over an allocation of `capacity_bytes` bytes.
    pub fn new(capacity_bytes: usize) -> (cache: Self)
        ensures
            cache.wf(),
            cache@ == Map::<Seq<char>, CacheEntry>::empty(),
            cache.spec_capacity_bytes() == capacity_bytes,
            cache.spec_used_bytes() == 0,
    {
        let cache = VramExpertCache {
            buffer: DeviceBuffer::with_len(capacity_bytes),
            capacity_bytes,
            used_bytes: 0,
            names: Vec::new(),
            entries: Vec::new(),
        };
        assert(cache@ =~= Map::<Seq<char>, CacheEntry>::empty());
        cache
    }

    /// Whether an entry of `total` bytes still fits.
    pub open spec fn fits(&self, total: int) -> bool {
        self.spec_used_bytes() + total <= self.spec_capacity_bytes()
    }

    /// The copies that fill the next entry, if it fits.
    pub fn insert_plan(&self, packed_bytes: usize, scales_bytes: usize) -> (plan: Option<Plan>)
        requires
            self.wf(),
            packed_bytes + scales_bytes <= usize::MAX,
        ensures
            plan is Some <==> self.fits(packed_bytes + scales_bytes),
            plan matches Some(plan) ==> plan@ == entry_copies(
                CacheEntry::placed(
                    self.spec_used_bytes() as int,
                    packed_bytes as int,
                    scales_bytes as int,
                ),
            ),
    {
        let total: usize = packed_bytes + scales_bytes;
        if total > self.capacity_bytes - self.used_bytes {
            return None;
        }
        let packed_offset: usize = self.used_bytes;
        let scales_offset: usize = packed_offset + packed_bytes;
        let first = Plan::of(
            Step::Copy {
                engine: Engine::Compute,
                from: Region { operand: Operand::Packed, start: 0, end: packed_bytes },
                to: Region { operand: Operand::ExpertCache, start: packed_offset, end: scales_offset },
                stage: "vram cache htod packed",
            },
        );
        let second = Plan::of(
            Step::Copy {
                engine: Engine::Compute,
                from: Region { operand: Operand::Scales, start: 0, end: scales_bytes },
                to: Region {
                    operand: Operand::ExpertCache,
                    start: scales_offset,
                    end: scales_offset + scales_bytes,
                },
                stage: "vram cache htod scales",
            },
        );
        let plan = first.followed_by(second);
        assert(plan@ =~= entry_copies(
            CacheEntry::placed(
                self.spec_used_bytes() as int,
                packed_bytes as int,
                scales_bytes as int,
            ),
        ));
        Some(plan)
    }

    /// Enters what was copied as [`Self::insert_plan`] has it: `copied` is what the copies
    /// came to. Where the entry does not fit, or the copies failed, the cache stays as it
    /// was. An entry of the same name is replaced; its bytes stay used.
    pub fn try_insert(
        &mut self,
        name: &str,
        packed_bytes: usize,
        scales_bytes: usize,
        copied: Result<(), AegisError>,
    ) -> (inserted: Result<bool, AegisError>)
        requires
            old(self).wf(),
            packed_bytes + scales_bytes <= usize::MAX,
        ensures
            final(self).wf(),
            final(self).spec_capacity_bytes() == old(self).spec_capacity_bytes(),
            inserted == insertion(old(self).fits(packed_bytes + scales_bytes), copied),
            inserted == Ok::<bool, AegisError>(true) ==> {
                &&& final(self)@ == old(self)@.insert(
                    name@,
                    CacheEntry::placed(
                        old(self).spec_used_bytes() as int,
                        packed_bytes as int,
                        scales_bytes as int,
                    ),
                )
                &&& final(self).spec_used_bytes() == old(self).spec_used_bytes() + packed_bytes
                    + scales_bytes
            },
            inserted != Ok::<bool, AegisError>(true) ==> {
                &&& final(self)@ == old(self)@
                &&& final(self).spec_used_bytes() == old(self).spec_used_bytes()
            },
    {
        let total: usize = packed_bytes + scales_bytes;
        if total > self.capacity_bytes - self.used_bytes {
            return Ok(false);
        }
        match copied {
            Ok(()) => {},
            Err(error) => {
                return Err(error);
            },
        }
        let packed_offset: usize = self.used_bytes;
        let entry = CacheEntry {
            packed_offset,
            packed_bytes,
            scales_offset: packed_offset + packed_bytes,
            scales_bytes,
        };
        let place: Option<usize> = self.find(name);
        let ghost before = *self;
        self.used_bytes = packed_offset + total;
        match place {
            Some(i) => {
                self.entries.set(i, entry);
                proof {
                    assert(self.wf());
                    assert forall|key: Seq<char>| self@.contains_key(key) == before@.insert(
                        name@,
                        entry,
                    ).contains_key(key) by {
                        before.lemma_place(i as int);
                    }
                    assert forall|key: Seq<char>| #[trigger] self@.contains_key(key) implies self@[key]
                        == before@.insert(name@, entry)[key] by {
                        let p = self.place_of(key);
                        self.lemma_place(p);
                        before.lemma_place(p);
                        if key == name@ {
                            self.lemma_place(i as int);
                        }
                    }
                    assert(self@ =~= before@.insert(name@, entry));
                }
            },
            None => {
                self.names.push(name.to_owned());
                self.entries.push(entry);
                proof {
                    let last = self.names@.len() - 1;
                    assert(self.wf());
                    self.lemma_place(last);
                    assert forall|key: Seq<char>| self@.contains_key(key) == before@.insert(
                        name@,
                        entry,
                    ).contains_key(key) by {
                        if self@.contains_key(key) {
                            let p = self.place_of(key);
                            if p < last {
                                before.lemma_place(p);
                            }
                        }
                        if before@.contains_key(key) {
                            let p = before.place_of(key);
                            self.lemma_place(p);
                        }
                    }
                    assert forall|key: Seq<char>| #[trigger] self@.contains_key(key) implies self@[key]
                        == before@.insert(name@, entry)[key] by {
                        let p = self.place_of(key);
                        self.lemma_place(p);
                        if p < last {
                            before.lemma_place(p);
                        }
                    }
                    assert(self@ =~= before@.insert(name@, entry));
                }
            },
        }
        Ok(true)
    }

    fn find(&self, name: &str) -> (place: Option<usize>)
        requires
            self.wf(),
        ensures
            match place {
                Some(i) => i < self.names@.len() && self.names@[i as int]@ == name@,
                None => forall|i: int|
                    0 <= i < self.names@.len() ==> (#[trigger] self.names@[i])@ != name@,
            },
    {
        let mut i: usize = 0;
        while i < self.names.len()
            invariant
                i <= self.names@.len(),
                forall|j: int| 0 <= j < i ==> (#[trigger] self.names@[j])@ != name@,
            decreases self.names@.len() - i,
        {
            if same_text(self.names[i].as_str(), name) {
                return Some(i);
            }
            i += 1;
        }
        None
    }

    /// The entry of a name.
    pub fn get(&self, name: &str) -> (entry: Option<&CacheEntry>)
        requires
            self.wf(),
        ensures
            entry is Some <==> self@.contains_key(name@),
            entry matches Some(entry) ==> *entry == self@[name@],
    {
        match self.find(name) {
            Some(i) => {
                proof {
                    self.lemma_place(i as int);
                }
                Some(&self.entries[i])
            },
            None => None,
        }
    }

    /// The allocation that the entries are in.
    pub fn buffer(&self) -> (buffer: &DeviceBuffer<u8>)
        requires
            self.wf(),
        ensures
            buffer.len() == self.spec_capacity_bytes(),
    {
        &self.buffer
    }

    /// Number of bytes that entries were placed in.
    pub fn used_bytes(&self) -> (bytes: usize)
        ensures
            bytes == self.spec_used_bytes(),
    {
        self.used_bytes
    }

    /// Number of bytes of the allocation.
    pub fn capacity_bytes(&self) -> (bytes: usize)
        ensures
            bytes == self.spec_capacity_bytes(),
    {
        self.capacity_bytes
    }

    /// Number of entries.
    pub fn entry_count(&self) -> (n: usize)
        requires
            self.wf(),
        ensures
            n == self@.dom().len(),
            self@.dom().finite(),
    {
        proof {
            self.lemma_count(self.names@.len() as int);
            let listed = Set::new(
                |name: Seq<char>|
                    exists|i: int|
                        0 <= i < self.names@.len() && #[trigger] self.names@[i]@ == name,
            );
            assert(self@.dom() =~= listed);
        }
        self.names.len()
    }

    proof fn lemma_count(&self, n: int)
        requires
            self.wf(),
            0 <= n <= self.names@.len(),
        ensures
            ({
                let listed = Set::new(
                    |name: Seq<char>|
                        exists|i: int| 0 <= i < n && #[trigger] self.names@[i]@ == name,
                );
                listed.finite() && listed.len() == n
            }),
        decreases n,
    {
        let listed = Set::new(
            |name: Seq<char>| exists|i: int| 0 <= i < n && #[trigger] self.names@[i]@ == name,
        );
        if n == 0 {
            assert(listed =~= Set::empty());
        } else {
            self.lemma_count(n - 1);
            let fewer = Set::new(
                |name: Seq<char>|
                    exists|i: int| 0 <= i < n - 1 && #[trigger] self.names@[i]@ == name,
            );
            let last = self.names@[n - 1]@;
            assert(!fewer.contains(last));
            assert forall|name: Seq<char>| listed.contains(name) == fewer.insert(last).contains(
                name,
            ) by {
                if listed.contains(name) {
                    let i = choose|i: int| 0 <= i < n && #[trigger] self.names@[i]@ == name;
                    assert(i == n - 1 || fewer.contains(name));
                }
                if fewer.contains(name) {
                    let i = choose|i: int| 0 <= i < n - 1 && #[trigger] self.names@[i]@ == name;
                    assert(listed.contains(name));
                }
            }
            assert(listed =~= fewer.insert(last));
        }
    }
}

/// What an insertion comes to: nothing is entered where the entry does not fit; what fits
/// is entered unless the copies failed.
pub open spec fn insertion(fits: bool, copied: Result<(), AegisError>) -> Result<bool, AegisError> {
    if !fits {
        Ok(false)
    } else {
        match copied {
            Ok(_) => Ok(true),
            Err(error) => Err(error),
        }
    }
}

/// The copies that fill an entry: the weights, and after them the scales.
pub open spec fn entry_copies(entry: CacheEntry) -> Seq<StepView> {
    seq![
        StepView::Copy {
            engine: Engine::Compute,
            from: Region { operand: Operand::Packed, start: 0, end: entry.packed_bytes },
            to: Region {
                operand: Operand::ExpertCache,
                start: entry.packed_offset,
                end: entry.scales_offset,
            },
            stage: "vram cache htod packed",
        },
        StepView::Copy {
            engine: Engine::Compute,
            from: Region { operand: Operand::Scales, start: 0, end: entry.scales_bytes },
            to: Region {
                operand: Operand::ExpertCache,
                start: entry.scales_offset,
                end: entry.end() as usize,
            },
            stage: "vram cache htod scales",
        },
    ]
}

/// The entries of a cache lie within it, weights before scales, and share no byte.
pub proof fn entries_are_apart(cache: VramExpertCache)
    requires
        cache.wf(),
    ensures
        cache.apart(),
{
    cache.lemma_apart();
}

/// How large a cache may be: the device memory that is free, less a margin.
pub fn pick_cache_capacity(free: usize, safety_margin_bytes: usize) -> (bytes: Result<usize, AegisError>)
    ensures
        match bytes {
            Ok(bytes) => free > safety_margin_bytes && bytes == free - safety_margin_bytes,
            Err(error) => free <= safety_margin_bytes && error == AegisError::invalid_with(
                "insufficient free VRAM for expert cache: free={} margin={}",
                Values::Two(Value::num(free as int), Value::num(safety_margin_bytes as int)),
            ),
        },
{
    if free <= safety_margin_bytes {
        return Err(
            invalid_plan(
                "insufficient free VRAM for expert cache: free={} margin={}",
                Values::Two(number(free), number(safety_margin_bytes)),
            ),
        );
    }
    Ok(free - safety_margin_bytes)
}

/// Enters an expert's weights, where they are in host memory; `copied` is what the copies
/// came to.
pub fn try_cache_nvfp4_expert(
    cache: &mut VramExpertCache,
    expert: &DeviceNvfp4Linear,
    copied: Result<(), AegisError>,
) -> (inserted: Result<bool, AegisError>)
    requires
        old(cache).wf(),
        expert.host_weights matches Some(host) ==> host.packed.len() + host.scales.len()
            <= usize::MAX,
    ensures
        final(cache).wf(),
        final(cache).spec_capacity_bytes() == old(cache).spec_capacity_bytes(),
        inserted == match expert.host_weights {
            Some(host) => insertion(
                old(cache).fits(host.packed.len() + host.scales.len()),
                copied,
            ),
            None => Ok(false),
        },
        inserted == Ok::<bool, AegisError>(true) ==> {
            &&& expert.host_weights matches Some(host)
            &&& final(cache)@ == old(cache)@.insert(
                expert.name@,
                CacheEntry::placed(
                    old(cache).spec_used_bytes() as int,
                    host.packed.len() as int,
                    host.scales.len() as int,
                ),
            )
            &&& final(cache).spec_used_bytes() == old(cache).spec_used_bytes() + host.packed.len()
                + host.scales.len()
        },
        inserted != Ok::<bool, AegisError>(true) ==> final(cache)@ == old(cache)@
            && final(cache).spec_used_bytes() == old(cache).spec_used_bytes(),
{
    match &expert.host_weights {
        Some(host) => cache.try_insert(
            expert.name.as_str(),
            host.packed.len(),
            host.scales.len(),
            copied,
        ),
        None => Ok(false),
    }
}

} // verus!
