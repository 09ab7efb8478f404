//! One page-locked host allocation that weights are placed into one after the other.
use crate::error::{invalid_plan, number, AegisError, Value, Values};
use vstd::prelude::*;

verus! {

/// A part of the arena: its bytes `offset..offset + len`.
#[derive(Clone, Copy, Debug, PartialEq, Eq, Structural)]
pub struct ArenaRange {
    pub offset: usize,
    pub len: usize,
}

impl ArenaRange {
    /// The ranges have no byte in common.
    pub open spec fn disjoint(self, other: ArenaRange) -> bool {
        self.offset + self.len <= other.offset || other.offset + other.len <= self.offset
    }
}

/// A contiguous host allocation, handed out from its start on.
pub struct PinnedArena {
    capacity: usize,
    used: usize,
    handed: Ghost<Seq<ArenaRange>>,
}

impl PinnedArena {
    /// Number of bytes of the allocation.
    pub closed spec fn spec_capacity(&self) -> usize {
        self.capacity
    }

    /// Number of bytes that were handed out.
    pub closed spec fn spec_used(&self) -> usize {
        self.used
    }

    /// The ranges that were handed out, in order.
    pub closed spec fn handed(&self) -> Seq<ArenaRange> {
        self.handed@
    }

    /// What was handed out lies within the bytes that count as used, and no byte was
    /// handed out twice.
    pub open spec fn wf(&self) -> bool {
        &&& self.spec_used() <= self.spec_capacity()
        &&& forall|i: int|
            0 <= i < self.handed().len() ==> (#[trigger] self.handed()[i]).offset
                + self.handed()[i].len <= self.spec_used()
        &&& forall|i: int, j: int|
            0 <= i < j < self.handed().len() ==> (#[trigger] self.handed()[i]).disjoint(
                #[trigger] self.handed()[j],
            )
    }

    /// The arena over an allocation of `mapped` bytes that was made for a request of
    /// `capacity` bytes.
    pub fn new(capacity: usize, mapped: usize) -> (arena: Result<Self, AegisError>)
        ensures
            capacity == 0 ==> arena == Err::<Self, _>(
                AegisError::invalid("PinnedArena requires non-zero capacity"),
            ),
            capacity > 0 ==> (arena matches Ok(arena) && arena.wf() && arena.spec_capacity()
                == mapped && arena.spec_used() == 0 && arena.handed().len() == 0),
    {
        if capacity == 0 {
            return Err(invalid_plan("PinnedArena requires non-zero capacity", Values::Zero));
        }
        Ok(PinnedArena { capacity: mapped, used: 0, handed: Ghost(Seq::empty()) })
    }

    /// Hands out the next `len` bytes, if they are there; otherwise the arena stays as it
    /// was.
    pub fn reserve(&mut self, len: usize) -> (offset: Result<usize, AegisError>)
        requires
            old(self).wf(),
        ensures
            final(self).wf(),
            final(self).spec_capacity() == old(self).spec_capacity(),
            match offset {
                Ok(offset) => {
                    &&& old(self).spec_used() + len <= old(self).spec_capacity()
                    &&& offset == old(self).spec_used()
                    &&& final(self).spec_used() == offset + len
                    &&& final(self).handed() == old(self).handed().push(ArenaRange { offset, len })
                },
                Err(error) => {
                    &&& old(self).spec_used() + len > old(self).spec_capacity()
                    &&& final(self).spec_used() == old(self).spec_used()
                    &&& final(self).handed() == old(self).handed()
                    &&& error == AegisError::invalid_with(
                        "PinnedArena overflow: requested {} at offset {}, capacity {}",
                        Values::Three(
                            Value::num(len as int),
                            Value::num(old(self).spec_used() as int),
                            Value::num(old(self).spec_capacity() as int),
                        ),
                    )
                },
            },
    {
        let offset: usize = self.used;
        if len > self.capacity - offset {
            return Err(
                invalid_plan(
                    "PinnedArena overflow: requested {} at offset {}, capacity {}",
                    Values::Three(number(len), number(offset), number(self.capacity)),
                ),
            );
        }
        self.used = offset + len;
        self.handed = Ghost(self.handed@.push(ArenaRange { offset, len }));
        proof {
            let before = old(self).handed();
            assert forall|i: int| 0 <= i < self.handed().len() implies (
            #[trigger] self.handed()[i]).offset + self.handed()[i].len <= self.spec_used() by {
                if i < before.len() {
                    assert(before[i].offset + before[i].len <= old(self).spec_used());
                }
            }
            assert forall|i: int, j: int| 0 <= i < j < self.handed().len() implies (
            #[trigger] self.handed()[i]).disjoint(#[trigger] self.handed()[j]) by {
                assert(before[i].offset + before[i].len <= old(self).spec_used());
                if j < before.len() {
                    assert(before[i].disjoint(before[j]));
                }
            }
        }
        Ok(offset)
    }

    /// Whether a range lies within the arena.
    pub fn in_bounds(&self, offset: usize, len: usize) -> (yes: bool)
        ensures
            yes == (offset + len <= self.spec_capacity()),
    {
        offset <= self.capacity && len <= self.capacity - offset
    }

    /// Number of bytes that were handed out.
    pub fn used(&self) -> (bytes: usize)
        ensures
            bytes == self.spec_used(),
    {
        self.used
    }

    /// Number of bytes of the allocation.
    pub fn capacity(&self) -> (bytes: usize)
        ensures
            bytes == self.spec_capacity(),
    {
        self.capacity
    }
}

/// No two ranges that an arena handed out share a byte, and each lies within it.
pub proof fn handed_ranges_are_apart(arena: PinnedArena, i: int, j: int)
    requires
        arena.wf(),
        0 <= i < arena.handed().len(),
        0 <= j < arena.handed().len(),
        i != j,
    ensures
        arena.handed()[i].disjoint(arena.handed()[j]),
        arena.handed()[i].offset + arena.handed()[i].len <= arena.spec_capacity(),
{
    if i < j {
        assert(arena.handed()[i].disjoint(arena.handed()[j]));
    } else {
        assert(arena.handed()[j].disjoint(arena.handed()[i]));
    }
}

} // verus!
