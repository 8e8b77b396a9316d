//! Capabilities for a small seL4-inspired kernel.
//!
//! Physical memory and capability storage are represented as unforgeable,
//! revocable tokens. Untyped memory capabilities cover raw address ranges and
//! support bump allocation and derivation of child ranges; capability tables
//! (CNode / CSpace) store capabilities in indexed slots.

use vstd::arithmetic::div_mod::lemma_fundamental_div_mod;
use vstd::arithmetic::div_mod::lemma_mod_multiples_basic;
use vstd::arithmetic::div_mod::lemma_mod_multiples_vanish;
use vstd::arithmetic::power2::lemma_pow2_unfold;
use vstd::arithmetic::power2::pow2;
use vstd::bits::lemma_usize_pow2_no_overflow;
use vstd::bits::lemma_usize_shl_is_mul;
use vstd::prelude::*;

pub mod cnode;
pub mod feature;
pub mod cspace;
pub mod untyped;

pub use cspace::CSpaceCapa;

verus! {

/// Size of a frame as a power of two.
///
/// Note: on Arm the frame size is configurable. 4kiB is the minimal size, but we might want to
/// make this configurable in the future.
pub const FRAME_SIZE_EXPONENT: u8 = 12;

/// Rounds `x` up to the next multiple of `align`.
pub open spec fn align_up(x: int, align: int) -> int
    recommends
        align >= 1,
{
    ((x + align - 1) / align) * align
}

/// Computes `2 ^ e` on machine words.
pub fn pow2_usize(e: u8) -> (r: usize)
    requires
        (e as u32) < usize::BITS,
    ensures
        r == pow2(e as nat),
        r >= 1,
{
    proof {
        lemma_usize_pow2_no_overflow(e as nat);
        lemma_usize_shl_is_mul(1usize, e as usize);
    }
    1usize << (e as usize)
}

/// Capability operation error.
#[derive(Debug, PartialEq, Eq, Structural, Clone, Copy)]
pub enum CapaError {
    /// An index does not resolve to a slot of the CNode.
    CNodeInvalidIndex,
    /// An index does not resolve to a slot of the CSpace.
    CSpaceInvalidIndex,
    /// The capability table has no free slot left.
    CspaceOutOfSpace,
    /// The untyped memory capability has already been split.
    UntypedAlreadySplit,
    /// The untyped memory capability has already allocated objects.
    UntypedAlreadyInUse,
    /// The untyped memory capability cannot be split further than its current size.
    UntypedCantSplitFurther,
    /// The untyped memory capability does not have enough free space.
    UntypedOutOfSpace,
    /// The requested range is not a proper sub-range of the capability.
    UntypedOutOfBounds,
    /// The requested range overlaps a sibling in a forbidden way.
    UntypedOverlap,
    /// The untyped memory capability is in allocation mode, which excludes derivation.
    UntypedWrongMode,
}

impl CapaError {
    /// A short human-readable description of the error.
    pub fn message(&self) -> (r: &'static str)
        ensures
            r@ == self.spec_message(),
    {
        match self {
            CapaError::CNodeInvalidIndex => "invalid cnode index",
            CapaError::CSpaceInvalidIndex => "invalid cspace index",
            CapaError::CspaceOutOfSpace => "cspace is full",
            CapaError::UntypedAlreadySplit => "untyped memory capabilities is already split",
            CapaError::UntypedAlreadyInUse => "untyped memory has already allocated objects",
            CapaError::UntypedCantSplitFurther => "untyped memory can't be split further thant its current size",
            CapaError::UntypedOutOfSpace => "untyped memory doest have enough free space",
            CapaError::UntypedOutOfBounds => "untyped memory range is out of bounds",
            CapaError::UntypedOverlap => "untyped memory range overlaps a sibling",
            CapaError::UntypedWrongMode => "untyped memory is in allocation mode",
        }
    }

    /// The description that [`CapaError::message`] returns for each variant.
    pub open spec fn spec_message(&self) -> Seq<char> {
        match self {
            CapaError::CNodeInvalidIndex => "invalid cnode index"@,
            CapaError::CSpaceInvalidIndex => "invalid cspace index"@,
            CapaError::CspaceOutOfSpace => "cspace is full"@,
            CapaError::UntypedAlreadySplit => "untyped memory capabilities is already split"@,
            CapaError::UntypedAlreadyInUse => "untyped memory has already allocated objects"@,
            CapaError::UntypedCantSplitFurther => "untyped memory can't be split further thant its current size"@,
            CapaError::UntypedOutOfSpace => "untyped memory doest have enough free space"@,
            CapaError::UntypedOutOfBounds => "untyped memory range is out of bounds"@,
            CapaError::UntypedOverlap => "untyped memory range overlaps a sibling"@,
            CapaError::UntypedWrongMode => "untyped memory is in allocation mode"@,
        }
    }
}

/// A capability index, represents an address in capability space (CSpace).
#[derive(Debug, Clone, Copy)]
pub struct CapaIdx(pub usize);

/// A capability, as stored in a capability table slot.
#[derive(Debug)]
pub enum Capa {
    Null,
    CSpace(CSpaceCapa),
    Untyped(UntypedCapa),
}

/// The slot table `post` is the slot table `pre` with `capa` written into its
/// lowest `Null` slot, which is slot `i`.
pub open spec fn inserted_at_first_null(pre: Seq<Capa>, post: Seq<Capa>, capa: Capa, i: int) -> bool {
    &&& 0 <= i < pre.len()
    &&& pre[i] is Null
    &&& forall|j: int| 0 <= j < i ==> !(pre[j] is Null)
    &&& post == pre.update(i, capa)
}

/// Inserts fill a table in ascending slot order: if the occupied slots of a
/// table are exactly the prefix `0..n`, then after a successful insert of a
/// non-`Null` capability the occupied slots are exactly the prefix `0..n + 1`.
/// Starting from an empty table, `n` successful inserts therefore occupy
/// exactly the slots `0..n`.
pub proof fn lemma_insert_extends_prefix(pre: Seq<Capa>, post: Seq<Capa>, capa: Capa, n: int)
    requires
        0 <= n < pre.len(),
        forall|k: int| 0 <= k < pre.len() ==> (pre[k] is Null <==> k >= n),
        !(capa is Null),
        exists|i: int| inserted_at_first_null(pre, post, capa, i),
    ensures
        post == pre.update(n, capa),
        post.len() == pre.len(),
        forall|k: int| 0 <= k < post.len() ==> (post[k] is Null <==> k >= n + 1),
{
    let i = choose|i: int| inserted_at_first_null(pre, post, capa, i);
    assert(pre[n] is Null);
    assert(i == n);
}

/// A value that is a multiple of twice `m` is a multiple of `m`.
proof fn lemma_mod_double(a: int, m: int)
    requires
        m >= 1,
        a % (2 * m) == 0,
    ensures
        a % m == 0,
{
    let q = a / (2 * m);
    lemma_fundamental_div_mod(a, 2 * m);
    assert(a == (2 * q) * m) by (nonlinear_arith)
        requires
            a == (2 * m) * q + 0,
    ;
    lemma_mod_multiples_basic(2 * q, m);
}

/// Untyped Memory Capability.
#[derive(Debug)]
pub struct UntypedCapa {
    /// Size of the untyped memory, as a power of two.
    pub size: u8,
    /// Start address of the untyped memory.
    ///
    /// Note: this should be page-aligned, we could use the remaining bits to optimize the
    /// capability size.
    pub address: usize,
    /// How much of the untyped memory has been allocated for kernel objects.
    ///
    /// This can be seen as a simple bump allocator.
    pub watermark: usize,
    /// Whether the untyped capability has been split in two child capabilities.
    pub is_split: bool,
}

impl UntypedCapa {
    /// The size exponent is addressable, the address is naturally aligned to the
    /// region's size, the region fits the address space, and the watermark stays
    /// inside the region.
    pub open spec fn wf(&self) -> bool {
        &&& (self.size as u32) < usize::BITS
        &&& FRAME_SIZE_EXPONENT <= self.size
        &&& self.address as int % pow2(self.size as nat) as int == 0
        &&& self.watermark <= pow2(self.size as nat)
        &&& self.address + pow2(self.size as nat) <= usize::MAX
    }

    /// The end of the memory range (exclusive).
    pub open spec fn spec_end(&self) -> int {
        self.address + pow2(self.size as nat)
    }

    /// Creates a new untyped memory capability.
    ///
    /// Size is interpreted as a power of two. The caller guarantees that the
    /// range is live, exclusively owned, aligned to its size, and addressable.
    pub fn new(address: usize, size: u8) -> (r: UntypedCapa)
        requires
            (size as u32) < usize::BITS,
            FRAME_SIZE_EXPONENT <= size,
            address as int % pow2(size as nat) as int == 0,
            address + pow2(size as nat) <= usize::MAX,
        ensures
            r == (UntypedCapa { size, address, watermark: 0, is_split: false }),
            r.wf(),
    {
        UntypedCapa { size, address, watermark: 0, is_split: false }
    }

    /// Allocates memory for use by kernel objects.
    ///
    /// Size is in bytes, alignment a power of two.
    ///
    /// The returned start address is naturally aligned to `2 ^ alignment`.
    pub fn allocate(&mut self, size: usize, alignment: u8) -> (r: Result<usize, CapaError>)
        requires
            old(self).wf(),
            (alignment as u32) < usize::BITS,
            old(self).address + old(self).watermark + pow2(alignment as nat) - 1 <= usize::MAX,
        ensures
            final(self).wf(),
            final(self).size == old(self).size,
            final(self).address == old(self).address,
            final(self).is_split == old(self).is_split,
            ({
                let aligned = align_up(
                    old(self).address + old(self).watermark,
                    pow2(alignment as nat) as int,
                );
                match r {
                    Ok(addr) => {
                        &&& !old(self).is_split
                        &&& aligned + size <= old(self).spec_end()
                        &&& addr == aligned
                        &&& addr as int % pow2(alignment as nat) as int == 0
                        &&& addr >= old(self).address + old(self).watermark
                        &&& final(self).watermark == addr + size - old(self).address
                    },
                    Err(e) => {
                        &&& final(self).watermark == old(self).watermark
                        &&& if old(self).is_split {
                            e == CapaError::UntypedAlreadySplit
                        } else {
                            e == CapaError::UntypedOutOfSpace && aligned + size > old(
                                self,
                            ).spec_end()
                        }
                    },
                }
            }),
    {
        // We can not allocate if the capability has been split.
        if self.is_split {
            return Err(CapaError::UntypedAlreadySplit);
        }

        // Align the start of the allocation to satisfy the constraint.
        let alignment: usize = pow2_usize(alignment);
        let unaligned: usize = self.address + self.watermark + (alignment - 1);
        let quot: usize = unaligned / alignment;
        proof {
            assert(quot * alignment <= unaligned) by (nonlinear_arith)
                requires
                    alignment >= 1,
                    unaligned >= 0,
                    quot == unaligned as int / alignment as int,
            ;
        }
        let alloc_start: usize = quot * alignment;

        proof {
            let x = self.address + self.watermark;
            let a = alignment as int;
            assert(x <= alloc_start && alloc_start as int % a == 0) by (nonlinear_arith)
                requires
                    a >= 1,
                    x >= 0,
                    unaligned == x + a - 1,
                    quot == unaligned as int / a,
                    alloc_start == quot * a,
            ;
            assert(alloc_start == align_up(x, a));
        }

        // Check that we don't run out of space.
        let end = self.end();
        if alloc_start > end || size > end - alloc_start {
            return Err(CapaError::UntypedOutOfSpace);
        }

        self.watermark = (alloc_start + size) - self.address;
        Ok(alloc_start)
    }

    /// Split an untyped memory capability in two new capabilities that can be used independently.
    ///
    /// An untyped memory capability can be split only once, and can not be split once objects have
    /// been allocated.
    pub fn split(&mut self) -> (r: Result<(UntypedCapa, UntypedCapa), CapaError>)
        requires
            old(self).wf(),
        ensures
            final(self).wf(),
            final(self).size == old(self).size,
            final(self).address == old(self).address,
            final(self).watermark == old(self).watermark,
            match r {
                Ok(pair) => {
                    &&& !old(self).is_split
                    &&& old(self).watermark == 0
                    &&& old(self).size > FRAME_SIZE_EXPONENT
                    &&& final(self).is_split
                    &&& pair.0 == (UntypedCapa {
                        size: (old(self).size - 1) as u8,
                        address: old(self).address,
                        watermark: 0,
                        is_split: false,
                    })
                    &&& pair.1 == (UntypedCapa {
                        size: (old(self).size - 1) as u8,
                        address: (old(self).address + pow2((old(self).size - 1) as nat)) as usize,
                        watermark: 0,
                        is_split: false,
                    })
                    &&& pair.0.wf()
                    &&& pair.1.wf()
                },
                Err(e) => {
                    &&& final(self).is_split == old(self).is_split
                    &&& if old(self).is_split {
                        e == CapaError::UntypedAlreadySplit
                    } else if old(self).watermark != 0 {
                        e == CapaError::UntypedAlreadyInUse
                    } else {
                        e == CapaError::UntypedCantSplitFurther && old(self).size
                            <= FRAME_SIZE_EXPONENT
                    }
                },
            },
    {
        // We can not split a capability twice.
        if self.is_split {
            Err(CapaError::UntypedAlreadySplit)
        }
        // We can not split a capability with already allocated objects.
        else if self.watermark != 0 {
            Err(CapaError::UntypedAlreadyInUse)
        }
        // We can not split the capability any further.
        else if self.size <= FRAME_SIZE_EXPONENT {
            Err(CapaError::UntypedCantSplitFurther)
        }
        // All good, we can split.
        else {
            self.is_split = true;
            let size = self.size - 1;
            let address = self.address;
            proof {
                vstd::arithmetic::power2::lemma_pow2_pos(size as nat);
                lemma_pow2_unfold(self.size as nat);
                lemma_mod_double(address as int, pow2(size as nat) as int);
                lemma_mod_multiples_vanish(1, address as int, pow2(size as nat) as int);
            }
            let left = Self::new(address, size);
            let right = Self::new(address + pow2_usize(size), size);
            Ok((left, right))
        }
    }

    /// Returns the end of the memory range (exclusive).
    fn end(&self) -> (r: usize)
        requires
            self.wf(),
        ensures
            r == self.spec_end(),
    {
        self.address + pow2_usize(self.size)
    }
}

} // verus!
