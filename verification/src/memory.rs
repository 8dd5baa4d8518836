//! Pooled device-memory accounting.
//!
//! The allocator carves blocks out of a fixed device budget, always in
//! multiples of a block granularity so that small resources do not each
//! cost a device allocation call. A released block returns to the pool,
//! not to the device, and any later request it is large enough for is
//! served from the pool — the first fitting block, handed over whole —
//! without touching the device budget; there is no splitting or
//! compaction, which the short-lived per-invocation resource set does
//! not need.

use vstd::prelude::*;

use crate::errors::PipelineError;

verus! {

/// Every block size is rounded up to a multiple of this many bytes.
pub const BLOCK_GRANULARITY: u64 = 1024;

/// One carved block of device memory.
#[derive(Clone, Copy, Debug, PartialEq, Eq, Structural)]
pub struct MemoryBlock {
    /// Byte offset of the block within the device arena.
    pub offset: u64,
    /// Byte size of the block; always a granularity multiple.
    pub size: u64,
}

/// The requested size rounded up to the next granularity multiple.
pub open spec fn round_up_spec(size: int) -> int {
    ((size + BLOCK_GRANULARITY - 1) / (BLOCK_GRANULARITY as int)) * (BLOCK_GRANULARITY as int)
}

/// Total bytes sitting in a pool.
pub open spec fn pool_bytes(s: Seq<MemoryBlock>) -> int
    decreases s.len(),
{
    if s.len() == 0 {
        0
    } else {
        pool_bytes(s.drop_last()) + s.last().size
    }
}

/// Whether some pooled block is large enough for the given size.
pub open spec fn pool_fits(s: Seq<MemoryBlock>, size: int) -> bool {
    exists|i: int| 0 <= i < s.len() && (#[trigger] s[i]).size >= size
}

/// How many pooled blocks are large enough for the given size.
pub open spec fn count_fitting(s: Seq<MemoryBlock>, size: int) -> int
    decreases s.len(),
{
    if s.len() == 0 {
        0
    } else {
        count_fitting(s.drop_last(), size) + if s.last().size >= size {
            1int
        } else {
            0int
        }
    }
}

/// Counts are never negative.
pub proof fn lemma_count_fitting_nonneg(s: Seq<MemoryBlock>, size: int)
    ensures
        count_fitting(s, size) >= 0,
    decreases s.len(),
{
    if s.len() > 0 {
        lemma_count_fitting_nonneg(s.drop_last(), size);
    }
}

/// The pool fits a size exactly when its fitting count is positive.
pub proof fn lemma_pool_fits_count(s: Seq<MemoryBlock>, size: int)
    ensures
        pool_fits(s, size) <==> count_fitting(s, size) > 0,
    decreases s.len(),
{
    lemma_count_fitting_nonneg(s, size);
    if s.len() > 0 {
        lemma_pool_fits_count(s.drop_last(), size);
        lemma_count_fitting_nonneg(s.drop_last(), size);
        if s.last().size >= size {
            assert((#[trigger] s[s.len() - 1]).size >= size);
        } else {
            if pool_fits(s.drop_last(), size) {
                let i = choose|i: int|
                    0 <= i < s.drop_last().len() && (#[trigger] s.drop_last()[i]).size >= size;
                assert((#[trigger] s[i]).size >= size);
            }
            if pool_fits(s, size) {
                let i = choose|i: int| 0 <= i < s.len() && (#[trigger] s[i]).size >= size;
                assert(i != s.len() - 1);
                assert((#[trigger] s.drop_last()[i]).size >= size);
            }
        }
    }
}

/// Removing one block lowers the fitting count of the sizes it fits by
/// one and no other.
pub proof fn lemma_count_fitting_remove(s: Seq<MemoryBlock>, i: int, size: int)
    requires
        0 <= i < s.len(),
    ensures
        count_fitting(s.remove(i), size) == count_fitting(s, size) - if s[i].size >= size {
            1int
        } else {
            0int
        },
    decreases s.len(),
{
    if i == s.len() - 1 {
        assert(s.remove(i) =~= s.drop_last());
    } else {
        let t = s.remove(i);
        assert(t.drop_last() =~= s.drop_last().remove(i));
        assert(t.last() == s.last());
        lemma_count_fitting_remove(s.drop_last(), i, size);
    }
}

/// Pool totals are never negative.
pub proof fn lemma_pool_bytes_nonneg(s: Seq<MemoryBlock>)
    ensures
        pool_bytes(s) >= 0,
    decreases s.len(),
{
    if s.len() > 0 {
        lemma_pool_bytes_nonneg(s.drop_last());
    }
}

/// Removing one block takes exactly its size out of the pool total.
pub proof fn lemma_pool_bytes_remove(s: Seq<MemoryBlock>, i: int)
    requires
        0 <= i < s.len(),
    ensures
        pool_bytes(s.remove(i)) == pool_bytes(s) - s[i].size,
    decreases s.len(),
{
    if i == s.len() - 1 {
        assert(s.remove(i) =~= s.drop_last());
    } else {
        let t = s.remove(i);
        assert(t.drop_last() =~= s.drop_last().remove(i));
        assert(t.last() == s.last());
        lemma_pool_bytes_remove(s.drop_last(), i);
    }
}

/// Pushing one block adds exactly its size to the pool total.
pub proof fn lemma_pool_bytes_push(s: Seq<MemoryBlock>, b: MemoryBlock)
    ensures
        pool_bytes(s.push(b)) == pool_bytes(s) + b.size,
{
    assert(s.push(b).drop_last() =~= s);
}

/// Pools device memory under a fixed budget and suballocates blocks.
#[derive(Debug)]
pub struct MemoryAllocator {
    /// The device budget: carved blocks never exceed it in total.
    pub capacity: u64,
    /// Bytes carved from the device so far (in use or pooled).
    pub device_allocated: u64,
    /// Bytes currently handed out to live resources.
    pub in_use: u64,
    /// Released blocks waiting to be reused.
    pub pool: Vec<MemoryBlock>,
}

impl MemoryAllocator {
    /// The accounting invariant: what was carved from the device is
    /// either in use or in the pool, and stays within the budget; pooled
    /// sizes are granularity multiples.
    pub open spec fn wf(self) -> bool {
        &&& pool_bytes(self.pool@) + self.in_use == self.device_allocated
        &&& self.device_allocated <= self.capacity
        &&& forall|i: int|
            0 <= i < self.pool@.len() ==> (#[trigger] self.pool@[i]).size as int % (
            BLOCK_GRANULARITY as int) == 0
    }

    /// A fresh allocator over an untouched device budget.
    pub fn new(capacity: u64) -> (r: MemoryAllocator)
        ensures
            r.wf(),
            r.capacity == capacity,
            r.device_allocated == 0,
            r.in_use == 0,
            r.pool@.len() == 0,
    {
        MemoryAllocator { capacity, device_allocated: 0, in_use: 0, pool: Vec::new() }
    }

    /// Serves a request, preferring the first pooled block large enough
    /// for the rounded size — handed over whole, with no splitting — and
    /// carving from the device budget only when no pooled block fits.
    ///
    /// Succeeds exactly when some pooled block fits or the budget still
    /// has room for the rounded size; everything else is
    /// `AllocationFailure`, with the allocator untouched.
    pub fn allocate(&mut self, size: u64) -> (r: Result<MemoryBlock, PipelineError>)
        requires
            old(self).wf(),
        ensures
            final(self).wf(),
            final(self).capacity == old(self).capacity,
            r is Ok <==> (pool_fits(old(self).pool@, round_up_spec(size as int))
                || old(self).device_allocated + round_up_spec(size as int) <= old(self).capacity),
            r matches Ok(b) ==> {
                &&& size <= b.size
                &&& round_up_spec(size as int) <= b.size
                &&& b.size as int % (BLOCK_GRANULARITY as int) == 0
                &&& final(self).in_use == old(self).in_use + b.size
            },
            // any fitting pooled block serves the request without a device
            // allocation call: the first-fit block leaves the pool whole
            r is Ok && pool_fits(old(self).pool@, round_up_spec(size as int)) ==> {
                &&& final(self).device_allocated == old(self).device_allocated
                &&& count_fitting(final(self).pool@, round_up_spec(size as int)) == count_fitting(
                    old(self).pool@,
                    round_up_spec(size as int),
                ) - 1
                &&& exists|i: int|
                    {
                        &&& 0 <= i < old(self).pool@.len()
                        &&& (#[trigger] old(self).pool@[i]).size >= round_up_spec(size as int)
                        &&& forall|j: int|
                            0 <= j < i ==> (#[trigger] old(self).pool@[j]).size < round_up_spec(
                                size as int,
                            )
                        &&& r == Ok::<MemoryBlock, PipelineError>(old(self).pool@[i])
                        &&& final(self).pool@ == old(self).pool@.remove(i)
                    }
            },
            // only when nothing fits are fresh bytes carved at the end of
            // the arena, exactly the rounded size
            r matches Ok(b) ==> !pool_fits(old(self).pool@, round_up_spec(size as int)) ==> {
                &&& b.size == round_up_spec(size as int)
                &&& final(self).device_allocated == old(self).device_allocated + round_up_spec(
                    size as int,
                )
                &&& final(self).pool@ == old(self).pool@
                &&& b.offset == old(self).device_allocated
            },
            r is Err ==> r == Err::<MemoryBlock, PipelineError>(PipelineError::AllocationFailure)
                && *final(self) == *old(self),
    {
        let g: u128 = BLOCK_GRANULARITY as u128;
        let rounded_wide: u128 = ((size as u128 + (g - 1)) / g) * g;
        proof {
            lemma_round_up_bounds(size as int);
            assert(rounded_wide == round_up_spec(size as int));
            lemma_pool_bytes_nonneg(self.pool@);
        }
        let mut i: usize = 0;
        while i < self.pool.len()
            invariant
                *self == *old(self),
                old(self).wf(),
                i <= self.pool@.len(),
                forall|j: int| 0 <= j < i ==> (#[trigger] self.pool@[j]).size < rounded_wide,
                rounded_wide == round_up_spec(size as int),
                size <= rounded_wide < size + BLOCK_GRANULARITY,
            decreases self.pool@.len() - i,
        {
            if (self.pool[i].size as u128) >= rounded_wide {
                proof {
                    lemma_pool_bytes_remove(self.pool@, i as int);
                    lemma_pool_bytes_nonneg(self.pool@.remove(i as int));
                    lemma_count_fitting_remove(self.pool@, i as int, round_up_spec(size as int));
                }
                let b = self.pool.remove(i);
                self.in_use = self.in_use + b.size;
                proof {
                    assert(pool_fits(old(self).pool@, round_up_spec(size as int)));
                    assert forall|k: int| 0 <= k < self.pool@.len() implies (
                    #[trigger] self.pool@[k]).size as int % (BLOCK_GRANULARITY as int) == 0 by {
                        assert(self.pool@[k] == if k < i as int {
                            old(self).pool@[k]
                        } else {
                            old(self).pool@[k + 1]
                        });
                    }
                }
                return Ok(b);
            }
            i = i + 1;
        }
        assert(!pool_fits(self.pool@, round_up_spec(size as int)));
        if (self.device_allocated as u128) + rounded_wide <= (self.capacity as u128) {
            let rounded: u64 = rounded_wide as u64;
            let b = MemoryBlock { offset: self.device_allocated, size: rounded };
            self.device_allocated = self.device_allocated + rounded;
            self.in_use = self.in_use + rounded;
            Ok(b)
        } else {
            Err(PipelineError::AllocationFailure)
        }
    }

    /// Returns a block to the pool — not to the device — so a later
    /// request that fits it can reuse it.
    pub fn release(&mut self, block: MemoryBlock)
        requires
            old(self).wf(),
            block.size as int % (BLOCK_GRANULARITY as int) == 0,
            block.size <= old(self).in_use,
        ensures
            final(self).wf(),
            final(self).capacity == old(self).capacity,
            final(self).device_allocated == old(self).device_allocated,
            final(self).in_use == old(self).in_use - block.size,
            final(self).pool@ == old(self).pool@.push(block),
    {
        proof {
            lemma_pool_bytes_push(self.pool@, block);
        }
        self.in_use = self.in_use - block.size;
        self.pool.push(block);
    }
}

/// Bounds of granularity rounding: it never shrinks a request, overshoots
/// by less than one granule, and lands on a granule boundary.
pub proof fn lemma_round_up_bounds(size: int)
    requires
        size >= 0,
    ensures
        size <= round_up_spec(size) < size + BLOCK_GRANULARITY,
        round_up_spec(size) % (BLOCK_GRANULARITY as int) == 0,
{
    let g = BLOCK_GRANULARITY as int;
    let q = (size + g - 1) / g;
    vstd::arithmetic::div_mod::lemma_fundamental_div_mod(size + g - 1, g);
    let rem = (size + g - 1) % g;
    vstd::arithmetic::div_mod::lemma_mod_division_less_than_divisor(size + g - 1, g);
    assert(size + g - 1 == q * g + rem);
    assert(q * g == size + g - 1 - rem);
    vstd::arithmetic::div_mod::lemma_mod_multiples_basic(q, g);
}

} // verus!
