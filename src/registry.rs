use std::sync::Arc;
use vstd::prelude::*;

use crate::backend::StateBackend;
use crate::config::{default_layout, Field, VeigoConfig};
use crate::errors::VeigoIdError;
use crate::generator::{construction_error, VeigoIdGenerator};
use crate::id::VeigoId;

verus! {

/// A one-shot slot for a generator shared by a whole application: empty until
/// `configure` fills it, never refilled after that.
pub type GeneratorSlot<B> = Option<VeigoIdGenerator<B>>;

/// The layout `configure` builds with: the given one, else the default one.
pub open spec fn chosen_layout(config: Option<VeigoConfig>) -> Seq<Field> {
    match config {
        Some(c) => c.layout@,
        None => default_layout(),
    }
}

/// Fills an empty slot with a generator built from `config`, or from the
/// default configuration when none is given.
pub fn configure<B: StateBackend>(
    slot: &mut GeneratorSlot<B>,
    config: Option<VeigoConfig>,
    backend: Arc<B>,
    node_id: u128,
) -> (r: Result<(), VeigoIdError>)
    ensures
        (*old(slot)) is Some ==> (r matches Err(VeigoIdError::AlreadyConfigured) && *final(slot)
            == *old(slot)),
        (*old(slot)) is None && construction_error(chosen_layout(config), node_id) is Some ==> r
            == Err::<(), VeigoIdError>(construction_error(chosen_layout(config), node_id)->0)
            && (*final(slot)) is None,
        (*old(slot)) is None && construction_error(chosen_layout(config), node_id) is None ==> r
            is Ok && (*final(slot)) is Some && (*final(slot))->0.node() == node_id && (
        *final(slot))->0.layout() == chosen_layout(config),
        (*old(slot)) is None && config is Some && r is Ok ==> (*final(slot))->0.config()
            == config->0,
{
    if slot.is_some() {
        return Err(VeigoIdError::AlreadyConfigured);
    }
    let cfg = match config {
        Some(c) => c,
        None => VeigoConfig::default(),
    };
    match VeigoIdGenerator::new(cfg, backend, node_id) {
        Ok(generator) => {
            *slot = Some(generator);
            Ok(())
        },
        Err(e) => Err(e),
    }
}

/// The generator in the slot, or `NotConfigured` while it is empty.
pub fn get_global<B: StateBackend>(slot: &GeneratorSlot<B>) -> (r: Result<
    &VeigoIdGenerator<B>,
    VeigoIdError,
>)
    ensures
        slot is None ==> r matches Err(VeigoIdError::NotConfigured),
        slot matches Some(g) ==> (r matches Ok(h) && *h == g),
{
    match slot {
        Some(g) => Ok(g),
        None => Err(VeigoIdError::NotConfigured),
    }
}

/// What the generator in the slot may answer for `context`, as its own
/// `generate` states; `NotConfigured` while the slot is empty.
pub open spec fn slot_outcome<B: StateBackend>(
    slot: GeneratorSlot<B>,
    context: u128,
    r: Result<VeigoId, VeigoIdError>,
) -> bool {
    match slot {
        None => r matches Err(VeigoIdError::NotConfigured),
        Some(g) => g.generate_outcome(context, r),
    }
}

/// Issues an identifier from the generator in the slot.
pub fn generate<B: StateBackend>(slot: &GeneratorSlot<B>, context: u128) -> (r: Result<
    VeigoId,
    VeigoIdError,
>)
    ensures
        slot_outcome(*slot, context, r),
{
    match get_global(slot) {
        Ok(g) => g.generate(context),
        Err(e) => Err(e),
    }
}

} // verus!
