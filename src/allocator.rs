//! The record book of a bulk-free allocation arena.
//!
//! While a routine that may leak runs, every allocation it makes is recorded
//! here, and every allocation it frees is struck out. What is left when it
//! returns was leaked, and is freed in one pass. The book has a fixed
//! capacity, so that recording never allocates; an allocation that finds it
//! full is refused rather than silently left unrecorded.

use std::alloc::System;
use vstd::prelude::*;

verus! {

/// std's system allocator, a unit struct.
#[verifier::external_type_specification]
pub struct ExSystem(System);

/// Number of records that a book made without an explicit capacity holds.
pub const DEFAULT_CAPACITY: usize = 1 << 16;

/// One live allocation made while the arena was installed.
#[derive(Clone, Copy, Debug, PartialEq, Eq, Structural)]
pub struct AllocRecord {
    /// Address of the allocated block.
    pub addr: usize,
    /// Size of the block in bytes.
    pub size: usize,
    /// Alignment of the block in bytes.
    pub align: usize,
    /// The block was allocated while the thread was panicking.
    pub during_panic: bool,
}

/// The book already holds as many records as its capacity allows.
#[derive(Clone, Copy, Debug, PartialEq, Eq, Structural)]
pub struct ArenaFull;

/// Which records a pass over the book strikes out.
enum Strike {
    /// The records of one address.
    Address(usize),
    /// The records of allocations made during a panic.
    DuringPanic,
}

impl Strike {
    spec fn keeps(&self, r: AllocRecord) -> bool {
        match self {
            Strike::Address(addr) => r.addr != *addr,
            Strike::DuringPanic => !r.during_panic,
        }
    }
}

/// The records of `s` without those of address `addr`.
pub open spec fn without_address(s: Seq<AllocRecord>, addr: usize) -> Seq<AllocRecord> {
    s.filter(|r: AllocRecord| r.addr != addr)
}

/// The records of `s` without those made during a panic.
pub open spec fn without_panic_records(s: Seq<AllocRecord>) -> Seq<AllocRecord> {
    s.filter(|r: AllocRecord| !r.during_panic)
}

/// Total size in bytes of the blocks recorded in `s`.
pub open spec fn total_bytes(s: Seq<AllocRecord>) -> int
    decreases s.len(),
{
    if s.len() == 0 {
        0
    } else {
        total_bytes(s.drop_last()) + s.last().size
    }
}

/// Records of the allocations that were made through an allocator `T` and
/// not freed yet.
pub struct TrackingAlloc<T> {
    allocations: Vec<AllocRecord>,
    capacity: usize,
    allocator: T,
}

impl<T> View for TrackingAlloc<T> {
    type V = Seq<AllocRecord>;

    /// The live records, oldest first.
    closed spec fn view(&self) -> Seq<AllocRecord> {
        self.allocations@
    }
}

impl TrackingAlloc<System> {
    /// A book over the system allocator, with the default capacity.
    pub fn new() -> (r: Self)
        ensures
            r@.len() == 0,
            r.spec_capacity() == DEFAULT_CAPACITY,
            r.wf(),
    {
        Self::with_allocator(System)
    }
}

impl<T> TrackingAlloc<T> {
    /// Most records that the book holds.
    pub closed spec fn spec_capacity(&self) -> nat {
        self.capacity as nat
    }

    /// The allocator that the recorded blocks came from.
    pub closed spec fn spec_allocator(&self) -> T {
        self.allocator
    }

    /// The book holds no more records than its capacity.
    pub open spec fn wf(&self) -> bool {
        self@.len() <= self.spec_capacity()
    }

    /// An empty book over `allocator`, with the default capacity.
    pub fn with_allocator(allocator: T) -> (r: Self)
        ensures
            r@.len() == 0,
            r.spec_capacity() == DEFAULT_CAPACITY,
            r.spec_allocator() == allocator,
            r.wf(),
    {
        Self::with_capacity(allocator, DEFAULT_CAPACITY)
    }

    /// An empty book over `allocator` that holds at most `capacity` records.
    pub fn with_capacity(allocator: T, capacity: usize) -> (r: Self)
        ensures
            r@.len() == 0,
            r.spec_capacity() == capacity,
            r.spec_allocator() == allocator,
            r.wf(),
    {
        TrackingAlloc { allocations: Vec::with_capacity(capacity), capacity, allocator }
    }

    /// The allocator that the recorded blocks came from.
    pub fn allocator(&self) -> (r: &T)
        ensures
            *r == self.spec_allocator(),
    {
        &self.allocator
    }

    /// Most records that the book holds.
    pub fn capacity(&self) -> (r: usize)
        ensures
            r == self.spec_capacity(),
    {
        self.capacity
    }

    /// The live records, oldest first.
    pub fn allocations(&self) -> (r: &[AllocRecord])
        ensures
            r@ == self@,
    {
        self.allocations.as_slice()
    }

    /// Record a new allocation.
    ///
    /// A null address (a failed allocation) holds nothing to free and is not
    /// recorded. When the book is full the record is refused with `ArenaFull`
    /// and the book is left as it was.
    pub fn record_alloc(&mut self, record: AllocRecord) -> (r: Result<(), ArenaFull>)
        requires
            old(self).wf(),
        ensures
            final(self).wf(),
            final(self).spec_capacity() == old(self).spec_capacity(),
            final(self).spec_allocator() == old(self).spec_allocator(),
            record.addr == 0 ==> r is Ok && final(self)@ == old(self)@,
            record.addr != 0 && old(self)@.len() < old(self).spec_capacity() ==> r is Ok
                && final(self)@ == old(self)@.push(record),
            record.addr != 0 && old(self)@.len() >= old(self).spec_capacity() ==> r is Err
                && final(self)@ == old(self)@,
    {
        if record.addr == 0 {
            Ok(())
        } else if self.allocations.len() < self.capacity {
            self.allocations.push(record);
            Ok(())
        } else {
            Err(ArenaFull)
        }
    }

    /// Strike out the records of `addr` without freeing the block: its owner
    /// freed it, or takes it over.
    pub fn forget(&mut self, addr: usize)
        requires
            old(self).wf(),
        ensures
            final(self).wf(),
            final(self)@ == without_address(old(self)@, addr),
            final(self).spec_capacity() == old(self).spec_capacity(),
            final(self).spec_allocator() == old(self).spec_allocator(),
    {
        self.strike(Strike::Address(addr));
        proof {
            assert((|r: AllocRecord| Strike::Address(addr).keeps(r)) =~= (|r: AllocRecord|
                r.addr != addr));
        }
    }

    /// Strike out the records of allocations made while panicking.
    pub fn forget_panic_allocations(&mut self)
        requires
            old(self).wf(),
        ensures
            final(self).wf(),
            final(self)@ == without_panic_records(old(self)@),
            final(self).spec_capacity() == old(self).spec_capacity(),
            final(self).spec_allocator() == old(self).spec_allocator(),
    {
        self.strike(Strike::DuringPanic);
        proof {
            assert((|r: AllocRecord| Strike::DuringPanic.keeps(r)) =~= (|r: AllocRecord|
                !r.during_panic));
        }
    }

    /// Strike out every record, once the blocks have been freed or handed on.
    pub fn forget_all(&mut self)
        requires
            old(self).wf(),
        ensures
            final(self).wf(),
            final(self)@.len() == 0,
            final(self).spec_capacity() == old(self).spec_capacity(),
            final(self).spec_allocator() == old(self).spec_allocator(),
    {
        self.allocations.clear();
    }

    /// Keep, in order, the records that `rule` does not strike out; no
    /// allocation is made.
    fn strike(&mut self, rule: Strike)
        requires
            old(self).wf(),
        ensures
            final(self).wf(),
            final(self)@ == old(self)@.filter(|r: AllocRecord| rule.keeps(r)),
            final(self).capacity == old(self).capacity,
            final(self).allocator == old(self).allocator,
    {
        let ghost before = self.allocations@;
        let ghost keep = |r: AllocRecord| rule.keeps(r);
        let n = self.allocations.len();
        let mut kept: usize = 0;
        let mut i: usize = 0;
        while i < n
            invariant
                n == before.len(),
                self.allocations@.len() == n,
                kept <= i <= n,
                self.allocations@.subrange(0, kept as int) == before.subrange(0, i as int).filter(
                    keep,
                ),
                forall|k: int| i <= k < n ==> #[trigger] self.allocations@[k] == before[k],
                self.capacity == old(self).capacity,
                self.allocator == old(self).allocator,
                keep == (|r: AllocRecord| rule.keeps(r)),
            decreases n - i,
        {
            let record = self.allocations[i];
            let keeps = match rule {
                Strike::Address(addr) => record.addr != addr,
                Strike::DuringPanic => !record.during_panic,
            };
            proof {
                let ghost upto = before.subrange(0, i + 1);
                assert(upto.drop_last() =~= before.subrange(0, i as int));
                assert(upto.last() == record);
                assert(keeps == keep(record));
                reveal(Seq::filter);
                assert(upto.filter(keep) == (if keep(record) {
                    before.subrange(0, i as int).filter(keep).push(record)
                } else {
                    before.subrange(0, i as int).filter(keep)
                }));
            }
            if keeps {
                let ghost prefix = self.allocations@.subrange(0, kept as int);
                self.allocations.set(kept, record);
                proof {
                    assert(self.allocations@.subrange(0, kept + 1) =~= prefix.push(record));
                }
                kept = kept + 1;
            } else {
                proof {
                    assert(self.allocations@.subrange(0, kept as int) =~= before.subrange(
                        0,
                        i + 1,
                    ).filter(keep));
                }
            }
            i = i + 1;
        }
        self.allocations.truncate(kept);
        proof {
            assert(before.subrange(0, n as int) =~= before);
            assert(self.allocations@ =~= self.allocations@.subrange(0, kept as int));
            before.lemma_filter_len(keep);
        }
    }

    /// Total size in bytes of the recorded blocks.
    pub fn total_size(&self) -> (r: u128)
        ensures
            r == total_bytes(self@),
    {
        let n = self.allocations.len();
        let mut sum: u128 = 0;
        let mut i: usize = 0;
        while i < n
            invariant
                i <= n,
                n == self@.len(),
                sum == total_bytes(self@.subrange(0, i as int)),
                sum <= i * (usize::MAX as int),
            decreases n - i,
        {
            proof {
                assert(self@.subrange(0, i + 1).drop_last() =~= self@.subrange(0, i as int));
                assert(sum + self@[i as int].size <= (i + 1) * (usize::MAX as int)) by (nonlinear_arith)
                    requires
                        sum <= i * (usize::MAX as int),
                        self@[i as int].size <= usize::MAX,
                ;
                assert((i + 1) * (usize::MAX as int) <= u128::MAX) by (nonlinear_arith)
                    requires
                        i < n,
                        n <= usize::MAX,
                        usize::MAX < 0x1_0000_0000_0000_0000,
                ;
            }
            sum = sum + self.allocations[i].size as u128;
            i = i + 1;
        }
        proof {
            assert(self@.subrange(0, n as int) =~= self@);
        }
        sum
    }
}

} // verus!
