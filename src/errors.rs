use vstd::prelude::*;

verus! {

/// Everything that can go wrong when configuring a generator or issuing an identifier.
#[derive(Debug)]
pub enum VeigoIdError {
    /// The presented timestamp lies behind the one the backend has already recorded.
    ClockSkew { now: u128, last: u128 },
    /// A value does not fit in the bit width configured for its field.
    FieldOverflow { field: &'static str, value: u128, max: u128 },
    /// The registry slot already holds a generator.
    AlreadyConfigured,
    /// The registry slot holds no generator yet.
    NotConfigured,
    /// A lock around shared state was poisoned.
    Poisoned,
    /// The field layout is malformed.
    InvalidConfiguration(&'static str),
    /// A backend failed for a reason of its own.
    Backend(String),
}

/// Field name reported when a context value is too wide.
pub const CONTEXT_FIELD: &'static str = "context";

/// Field name reported when the elapsed seconds are too wide.
pub const TIMESTAMP_FIELD: &'static str = "timestamp";

/// Field name reported when the per-second sequence is exhausted.
pub const COUNTER_FIELD: &'static str = "counter";

/// Field name reported when a node identifier is too wide at construction.
pub const NODE_ID_FIELD: &'static str = "node_id initialization";

/// Message for a layout whose widths add up to more than the usable bits.
pub const TOO_MANY_BITS: &'static str = "total bits must be \u{2264} 127 excluding sign bit";

/// Message for a layout that lacks a field kind or repeats one.
pub const FIELD_KINDS: &'static str = "layout must contain exactly one of each field";

/// The overflow error for `field` holding `value` above `max`.
pub open spec fn overflow(field: &'static str, value: u128, max: u128) -> VeigoIdError {
    VeigoIdError::FieldOverflow { field, value, max }
}

} // verus!
