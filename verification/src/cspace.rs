//! CSpace (Capability Space) Capability

use vstd::arithmetic::power2::pow2;
use vstd::prelude::*;

use crate::inserted_at_first_null;
use crate::pow2_usize;
use crate::Capa;
use crate::CapaError;

verus! {

/// Capability Node Capability.
#[derive(Debug)]
pub struct CSpaceCapa {
    /// Number of slots, as a power of two.
    slots: u8,
    /// The CSpace object: a table of `2 ^ slots` capability slots.
    ///
    /// CSpace capabilities can not be copied, therefore they uniquely own the underlying CSpace
    /// object.
    storage: Vec<Capa>,
}

impl View for CSpaceCapa {
    type V = Seq<Capa>;

    closed spec fn view(&self) -> Seq<Capa> {
        self.storage@
    }
}

impl CSpaceCapa {
    /// Number of slots, as a power of two.
    pub closed spec fn spec_slots(&self) -> u8 {
        self.slots
    }

    /// The table holds exactly `2 ^ slots` slots, and the size exponent leaves
    /// headroom so that index arithmetic can not overflow.
    pub open spec fn wf(&self) -> bool {
        &&& (self.spec_slots() as u32) < usize::BITS - 2
        &&& self@.len() == pow2(self.spec_slots() as nat)
    }

    /// Create a new CSpace capability with `2 ^ slots` empty slots.
    ///
    /// The CSpace object is allocated here and uniquely owned by the returned
    /// capability. We limit the maximum size of a CSpace to prevent overflows in
    /// arithmetic operations.
    pub fn new(slots: u8) -> (r: CSpaceCapa)
        requires
            (slots as u32) < usize::BITS - 2,
        ensures
            r.wf(),
            r.spec_slots() == slots,
            forall|i: int| 0 <= i < r@.len() ==> r@[i] is Null,
    {
        let n = pow2_usize(slots);
        let mut storage: Vec<Capa> = Vec::new();
        while storage.len() < n
            invariant
                storage@.len() <= n,
                forall|i: int| 0 <= i < storage@.len() ==> storage@[i] is Null,
            decreases n - storage@.len(),
        {
            storage.push(Capa::Null);
        }
        CSpaceCapa { slots, storage }
    }

    /// Insert a capability in the current CSpace.
    ///
    /// This operation performs a linear scan and selects the first free slot.
    #[verifier::loop_isolation(false)]
    pub fn insert(&mut self, capa: Capa) -> (r: Result<(), CapaError>)
        requires
            old(self).wf(),
        ensures
            final(self).wf(),
            final(self).spec_slots() == old(self).spec_slots(),
            match r {
                Ok(_) => exists|i: int|
                    inserted_at_first_null(old(self)@, final(self)@, capa, i),
                Err(e) => {
                    &&& e == CapaError::CspaceOutOfSpace
                    &&& final(self)@ == old(self)@
                    &&& forall|i: int| 0 <= i < old(self)@.len() ==> !(old(self)@[i] is Null)
                },
            },
    {
        let n = self.nb_slots();
        for i in 0..n
            invariant
                *self == *old(self),
                forall|j: int| 0 <= j < i ==> !(self@[j] is Null),
        {
            let is_free = match &self.storage[i] {
                Capa::Null => true,
                _ => false,
            };
            if is_free {
                // We found a free slot, let's insert the capa here.
                self.set(i, capa)?;
                proof {
                    assert(inserted_at_first_null(old(self)@, self@, capa, i as int));
                }
                return Ok(());
            }
        }

        // We could not find a free slot with a scan
        Err(CapaError::CspaceOutOfSpace)
    }

    /// Take the capability at `index` out of the CSpace, leaving `Null` behind.
    ///
    /// Capabilities can not be copied: reading a slot transfers ownership of the
    /// stored capability to the caller, so the slot is left empty.
    pub fn get(&mut self, index: usize) -> (r: Result<Capa, CapaError>)
        requires
            old(self).wf(),
        ensures
            final(self).wf(),
            final(self).spec_slots() == old(self).spec_slots(),
            match r {
                Ok(capa) => {
                    &&& index < old(self)@.len()
                    &&& capa == old(self)@[index as int]
                    &&& final(self)@ == old(self)@.update(index as int, Capa::Null)
                },
                Err(e) => {
                    &&& index >= old(self)@.len()
                    &&& e == CapaError::CSpaceInvalidIndex
                    &&& final(self)@ == old(self)@
                },
            },
    {
        // We perform a bound check first.
        self.bound_check(index)?;

        let capa = self.storage.remove(index);
        self.storage.insert(index, Capa::Null);
        proof {
            assert(self.storage@ =~= old(self).storage@.update(index as int, Capa::Null));
        }
        Ok(capa)
    }

    /// Set a capability by its index within a CSpace.
    ///
    /// The slot is overwritten unconditionally: callers are responsible for not
    /// silently destroying live capabilities.
    pub fn set(&mut self, index: usize, capa: Capa) -> (r: Result<(), CapaError>)
        requires
            old(self).wf(),
        ensures
            final(self).wf(),
            final(self).spec_slots() == old(self).spec_slots(),
            match r {
                Ok(_) => {
                    &&& index < old(self)@.len()
                    &&& final(self)@ == old(self)@.update(index as int, capa)
                },
                Err(e) => {
                    &&& index >= old(self)@.len()
                    &&& e == CapaError::CSpaceInvalidIndex
                    &&& final(self)@ == old(self)@
                },
            },
    {
        // We perform a bound check first.
        self.bound_check(index)?;

        let _previous = self.storage.remove(index);
        self.storage.insert(index, capa);
        proof {
            assert(self.storage@ =~= old(self).storage@.update(index as int, capa));
        }
        Ok(())
    }

    /// Returns the number of slots in this cspace.
    fn nb_slots(&self) -> (r: usize)
        requires
            self.wf(),
        ensures
            r == self@.len(),
    {
        pow2_usize(self.slots)
    }

    /// Checks that the index is valid for this CSpace, and raises an invalid index error
    /// otherwise.
    fn bound_check(&self, index: usize) -> (r: Result<(), CapaError>)
        requires
            self.wf(),
        ensures
            match r {
                Ok(_) => index < self@.len(),
                Err(e) => index >= self@.len() && e == CapaError::CSpaceInvalidIndex,
            },
    {
        if index < self.nb_slots() {
            Ok(())
        } else {
            Err(CapaError::CSpaceInvalidIndex)
        }
    }
}

} // verus!
