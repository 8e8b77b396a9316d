//! Untyped Memory Capability
//!
//! An untyped capability covers a contiguous physical address range
//! `[start, end)`. It either commits memory to kernel objects through a
//! monotonic bump allocator (`allocate`), or derives child capabilities over
//! sub-ranges (`alias` / `carve`); the two modes are mutually exclusive.

use vstd::arithmetic::power2::pow2;
use vstd::prelude::*;

use crate::align_up;
use crate::pow2_usize;
use crate::CapaError;

verus! {

/// The derivation kind of an untyped capability.
#[derive(Debug, PartialEq, Eq, Structural, Clone, Copy)]
pub enum UntypedKind {
    Aliased,
    Carved,
}

/// Untyped Memory Capability.
#[derive(Debug)]
pub struct UntypedCapa {
    /// Start address of the untyped memory region (inclusive).
    pub start: usize,
    /// End address of the untyped memory region (exclusive).
    pub end: usize,
    /// Bump allocator watermark, relative to `start`.
    ///
    /// A non-zero watermark indicates the capability is in allocation mode, which is mutually
    /// exclusive with alias/carve.
    pub watermark: usize,
    /// How this capability was derived.
    pub kind: UntypedKind,
}

/// Half-open interval overlap: `[a_start, a_end)` and `[b_start, b_end)` share
/// at least one address.
pub open spec fn ranges_overlap(a_start: int, a_end: int, b_start: int, b_end: int) -> bool {
    a_start < b_end && b_start < a_end
}

/// The range `[start, end)` is a non-empty sub-range of `[outer_start, outer_end)`.
pub open spec fn range_within(start: int, end: int, outer_start: int, outer_end: int) -> bool {
    outer_start <= start && end <= outer_end && start < end
}

impl UntypedCapa {
    /// The capability describes a non-empty range and its watermark stays inside it.
    pub open spec fn wf(&self) -> bool {
        self.start < self.end && self.watermark <= self.end - self.start
    }

    /// Creates a new untyped memory capability covering `[start, end)`.
    pub fn new(start: usize, end: usize, kind: UntypedKind) -> (r: UntypedCapa)
        requires
            start < end,
        ensures
            r == (UntypedCapa { start, end, watermark: 0, kind }),
            r.wf(),
    {
        UntypedCapa { start, end, watermark: 0, kind }
    }

    /// Allocates memory for use by kernel objects.
    ///
    /// Size is in bytes, alignment is a power of two (as an exponent).
    ///
    /// The returned start address is naturally aligned to `2 ^ alignment`.
    ///
    /// The mutual exclusion between allocation mode and alias/carve is enforced
    /// at derivation time; this method only maintains the watermark.
    pub fn allocate(&mut self, size: usize, alignment: u8) -> (r: Result<usize, CapaError>)
        requires
            old(self).wf(),
            (alignment as u32) < usize::BITS,
            old(self).start + old(self).watermark + pow2(alignment as nat) - 1 <= usize::MAX,
        ensures
            final(self).wf(),
            final(self).start == old(self).start,
            final(self).end == old(self).end,
            final(self).kind == old(self).kind,
            ({
                let aligned = align_up(
                    old(self).start + old(self).watermark,
                    pow2(alignment as nat) as int,
                );
                match r {
                    Ok(addr) => {
                        &&& aligned + size <= old(self).end
                        &&& addr == aligned
                        &&& addr as int % pow2(alignment as nat) as int == 0
                        &&& addr >= old(self).start + old(self).watermark
                        &&& final(self).watermark == addr + size - old(self).start
                    },
                    Err(e) => {
                        &&& e == CapaError::UntypedOutOfSpace
                        &&& aligned + size > old(self).end
                        &&& final(self).watermark == old(self).watermark
                    },
                }
            }),
    {
        // Align the start of the allocation to satisfy the constraint.
        let alignment: usize = pow2_usize(alignment);
        let unaligned: usize = self.start + self.watermark + (alignment - 1);
        let quot: usize = unaligned / alignment;
        proof {
            assert(quot * alignment <= unaligned) by (nonlinear_arith)
                requires
                    alignment >= 1,
                    unaligned >= 0,
                    quot == unaligned as int / alignment as int,
            ;
        }
        let alloc_start: usize = quot * alignment;

        proof {
            let x = self.start + self.watermark;
            let a = alignment as int;
            assert(x <= alloc_start && alloc_start as int % a == 0) by (nonlinear_arith)
                requires
                    a >= 1,
                    x >= 0,
                    unaligned == x + a - 1,
                    quot == unaligned as int / a,
                    alloc_start == quot * a,
            ;
            assert(alloc_start == align_up(x, a));
        }

        // Check that we don't run out of space.
        if alloc_start > self.end || size > self.end - alloc_start {
            return Err(CapaError::UntypedOutOfSpace);
        }

        self.watermark = (alloc_start + size) - self.start;
        Ok(alloc_start)
    }

    /// Derives a new aliased child capability covering `[start, end)`.
    ///
    /// Aliased children may overlap with other aliased children, but not with carved children.
    ///
    /// - Rejected with `UntypedWrongMode` if `watermark > 0` (allocation mode active).
    /// - Rejected with `UntypedOutOfBounds` unless `[start, end)` is a non-empty
    ///   sub-range of `[self.start, self.end)`.
    /// - Rejected with `UntypedOverlap` if any carved child overlaps `[start, end)`.
    #[verifier::loop_isolation(false)]
    pub fn alias(&mut self, start: usize, end: usize, children: &[UntypedCapa]) -> (r: Result<
        UntypedCapa,
        CapaError,
    >)
        ensures
            *final(self) == *old(self),
            ({
                let s = *old(self);
                match r {
                    Ok(c) => {
                        &&& s.watermark == 0
                        &&& range_within(start as int, end as int, s.start as int, s.end as int)
                        &&& forall|i: int|
                            0 <= i < children@.len() && children@[i].kind == UntypedKind::Carved
                                ==> !ranges_overlap(
                                start as int,
                                end as int,
                                children@[i].start as int,
                                children@[i].end as int,
                            )
                        &&& c == (UntypedCapa {
                            start,
                            end,
                            watermark: 0,
                            kind: UntypedKind::Aliased,
                        })
                    },
                    Err(e) => {
                        if s.watermark > 0 {
                            e == CapaError::UntypedWrongMode
                        } else if !range_within(
                            start as int,
                            end as int,
                            s.start as int,
                            s.end as int,
                        ) {
                            e == CapaError::UntypedOutOfBounds
                        } else {
                            &&& e == CapaError::UntypedOverlap
                            &&& exists|i: int|
                                0 <= i < children@.len() && children@[i].kind
                                    == UntypedKind::Carved && ranges_overlap(
                                    start as int,
                                    end as int,
                                    children@[i].start as int,
                                    children@[i].end as int,
                                )
                        }
                    },
                }
            }),
    {
        if self.watermark > 0 {
            return Err(CapaError::UntypedWrongMode);
        }
        if start < self.start || end > self.end || start >= end {
            return Err(CapaError::UntypedOutOfBounds);
        }
        for i in 0..children.len()
            invariant
                forall|j: int|
                    0 <= j < i && children@[j].kind == UntypedKind::Carved ==> !ranges_overlap(
                        start as int,
                        end as int,
                        children@[j].start as int,
                        children@[j].end as int,
                    ),
        {
            let child = &children[i];
            if child.kind == UntypedKind::Carved
                && Self::overlaps(start, end, child.start, child.end) {
                return Err(CapaError::UntypedOverlap);
            }
        }
        Ok(UntypedCapa { start, end, watermark: 0, kind: UntypedKind::Aliased })
    }

    /// Derives a new carved (exclusive) child capability covering `[start, end)`.
    ///
    /// Carved children may not overlap with any other child, aliased or carved.
    ///
    /// - Rejected with `UntypedWrongMode` if `watermark > 0` (allocation mode active).
    /// - Rejected with `UntypedOutOfBounds` unless `[start, end)` is a non-empty
    ///   sub-range of `[self.start, self.end)`.
    /// - Rejected with `UntypedOverlap` if any existing child overlaps `[start, end)`.
    #[verifier::loop_isolation(false)]
    pub fn carve(&mut self, start: usize, end: usize, children: &[UntypedCapa]) -> (r: Result<
        UntypedCapa,
        CapaError,
    >)
        ensures
            *final(self) == *old(self),
            ({
                let s = *old(self);
                match r {
                    Ok(c) => {
                        &&& s.watermark == 0
                        &&& range_within(start as int, end as int, s.start as int, s.end as int)
                        &&& forall|i: int|
                            0 <= i < children@.len() ==> !ranges_overlap(
                                start as int,
                                end as int,
                                children@[i].start as int,
                                children@[i].end as int,
                            )
                        &&& c == (UntypedCapa {
                            start,
                            end,
                            watermark: 0,
                            kind: UntypedKind::Carved,
                        })
                    },
                    Err(e) => {
                        if s.watermark > 0 {
                            e == CapaError::UntypedWrongMode
                        } else if !range_within(
                            start as int,
                            end as int,
                            s.start as int,
                            s.end as int,
                        ) {
                            e == CapaError::UntypedOutOfBounds
                        } else {
                            &&& e == CapaError::UntypedOverlap
                            &&& exists|i: int|
                                0 <= i < children@.len() && ranges_overlap(
                                    start as int,
                                    end as int,
                                    children@[i].start as int,
                                    children@[i].end as int,
                                )
                        }
                    },
                }
            }),
    {
        if self.watermark > 0 {
            return Err(CapaError::UntypedWrongMode);
        }
        if start < self.start || end > self.end || start >= end {
            return Err(CapaError::UntypedOutOfBounds);
        }
        for i in 0..children.len()
            invariant
                forall|j: int|
                    0 <= j < i ==> !ranges_overlap(
                        start as int,
                        end as int,
                        children@[j].start as int,
                        children@[j].end as int,
                    ),
        {
            let child = &children[i];
            if Self::overlaps(start, end, child.start, child.end) {
                return Err(CapaError::UntypedOverlap);
            }
        }
        Ok(UntypedCapa { start, end, watermark: 0, kind: UntypedKind::Carved })
    }

    /// Returns true if the two ranges `[a_start, a_end)` and `[b_start, b_end)` overlap.
    fn overlaps(a_start: usize, a_end: usize, b_start: usize, b_end: usize) -> (r: bool)
        ensures
            r == ranges_overlap(a_start as int, a_end as int, b_start as int, b_end as int),
    {
        a_start < b_end && b_start < a_end
    }
}

} // verus!
