use vstd::prelude::*;

use crate::backend::StateBackend;
use crate::errors::VeigoIdError;
use crate::generator::VeigoIdParts;
use crate::layout::unpack_with;
use crate::registry::{generate, get_global, slot_outcome, GeneratorSlot};

verus! {

/// A packed identifier. Equality and order are those of the raw integer.
#[derive(Debug, Clone, Copy, PartialEq, Eq, Structural, PartialOrd, Ord, Hash)]
pub struct VeigoId(pub u128);

impl VeigoId {
    /// Issues a new identifier for `context` from the generator in the slot.
    pub fn new<B: StateBackend>(slot: &GeneratorSlot<B>, context: u128) -> (r: Result<
        Self,
        VeigoIdError,
    >)
        ensures
            slot_outcome(*slot, context, r),
    {
        generate(slot, context)
    }

    /// Splits the identifier with the layout of the generator in the slot.
    pub fn decode<B: StateBackend>(&self, slot: &GeneratorSlot<B>) -> (r: Result<
        VeigoIdParts,
        VeigoIdError,
    >)
        ensures
            slot is None ==> r matches Err(VeigoIdError::NotConfigured),
            slot matches Some(g) ==> r == Ok::<VeigoIdParts, VeigoIdError>(
                unpack_with(g.layout(), self.0),
            ),
    {
        match get_global(slot) {
            Ok(g) => Ok(g.decode(*self)),
            Err(e) => Err(e),
        }
    }
}

impl From<u128> for VeigoId {
    fn from(value: u128) -> (r: VeigoId)
        ensures
            r.0 == value,
    {
        VeigoId(value)
    }
}

impl vstd::std_specs::convert::FromSpecImpl<u128> for VeigoId {
    open spec fn obeys_from_spec() -> bool {
        true
    }

    open spec fn from_spec(v: u128) -> VeigoId {
        VeigoId(v)
    }
}

impl From<VeigoId> for u128 {
    fn from(id: VeigoId) -> (r: u128)
        ensures
            r == id.0,
    {
        id.0
    }
}

impl vstd::std_specs::convert::FromSpecImpl<VeigoId> for u128 {
    open spec fn obeys_from_spec() -> bool {
        true
    }

    open spec fn from_spec(id: VeigoId) -> u128 {
        id.0
    }
}

} // verus!
