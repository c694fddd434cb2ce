use std::sync::Arc;
use std::time::SystemTime;
use vstd::prelude::*;

use crate::backend::{backend_refusal, StateBackend};
use crate::config::{valid_layout, validation_outcome, Field, FieldKind, VeigoConfig};
use crate::errors::{
    overflow, VeigoIdError, CONTEXT_FIELD, COUNTER_FIELD, NODE_ID_FIELD, TIMESTAMP_FIELD,
};
use crate::id::VeigoId;
use crate::layout::{
    fits, index_of, lemma_layout_positions, lemma_round_trip, max_of, offset_below, pack_with,
    shift_of, unpack_with,
};
use crate::memory_backend::{answer, lemma_counters_unique, SequenceModel};

verus! {

/// An identifier split into its four fields.
#[derive(Debug, Clone, Copy, PartialEq, Eq, Structural)]
pub struct VeigoIdParts {
    pub timestamp: u128,
    pub context: u128,
    pub counter: u128,
    pub node_id: u128,
}

/// Shift and mask of each field, computed once from the layout.
#[derive(Debug, Clone, Copy)]
struct LayoutCache {
    ts_shift: u8,
    ctx_shift: u8,
    ctr_shift: u8,
    node_shift: u8,
    ts_mask: u128,
    ctx_mask: u128,
    ctr_mask: u128,
    node_mask: u128,
}

impl LayoutCache {
    spec fn shift_for(self, k: FieldKind) -> u8 {
        match k {
            FieldKind::Timestamp => self.ts_shift,
            FieldKind::Context => self.ctx_shift,
            FieldKind::Counter => self.ctr_shift,
            FieldKind::NodeId => self.node_shift,
        }
    }

    spec fn mask_for(self, k: FieldKind) -> u128 {
        match k {
            FieldKind::Timestamp => self.ts_mask,
            FieldKind::Context => self.ctx_mask,
            FieldKind::Counter => self.ctr_mask,
            FieldKind::NodeId => self.node_mask,
        }
    }

    /// The entry for `k` holds the shift and mask that layout `l` gives it.
    spec fn entry_matches(self, l: Seq<Field>, k: FieldKind) -> bool {
        &&& self.shift_for(k) as nat == shift_of(l, k)
        &&& self.mask_for(k) == max_of(l, k)
    }

    spec fn describes(self, l: Seq<Field>) -> bool {
        forall|k: FieldKind| #[trigger] self.entry_matches(l, k)
    }
}

/// Relies on SystemTime::now: the current wall-clock time.
#[verifier::external_body]
fn system_now() -> (r: SystemTime) {
    SystemTime::now()
}

/// Relies on SystemTime::duration_since, read with Duration::as_secs: the whole
/// seconds from `earlier` to `later`, or none when `later` lies before `earlier`.
#[verifier::external_body]
fn whole_seconds_between(earlier: SystemTime, later: SystemTime) -> (r: Option<u64>) {
    later.duration_since(earlier).ok().map(|d| d.as_secs())
}

/// The error for a clock that reads earlier than the configured epoch.
pub open spec fn clock_before_epoch() -> VeigoIdError {
    VeigoIdError::ClockSkew { now: 0, last: 0 }
}

/// Why a generator cannot be built from `layout` and `node_id`, if it cannot:
/// first the layout's own validation, then the node identifier's width.
pub open spec fn construction_error(layout: Seq<Field>, node_id: u128) -> Option<VeigoIdError> {
    if !valid_layout(layout) {
        Some(validation_outcome(layout)->Err_0)
    } else if node_id > max_of(layout, FieldKind::NodeId) {
        Some(overflow(NODE_ID_FIELD, node_id, max_of(layout, FieldKind::NodeId)))
    } else {
        None
    }
}

/// Issues identifiers for one node from one layout and one sequence backend.
#[derive(Debug)]
pub struct VeigoIdGenerator<B: StateBackend> {
    backend: Arc<B>,
    config: VeigoConfig,
    cache: LayoutCache,
    node_id: u128,
}

impl<B: StateBackend> VeigoIdGenerator<B> {
    #[verifier::type_invariant]
    spec fn well_formed(&self) -> bool {
        &&& valid_layout(self.config.layout@)
        &&& self.cache.describes(self.config.layout@)
        &&& self.node_id <= max_of(self.config.layout@, FieldKind::NodeId)
    }

    /// The configuration the generator was built from.
    pub closed spec fn config(&self) -> VeigoConfig {
        self.config
    }

    /// The field layout, most significant field first.
    pub closed spec fn layout(&self) -> Seq<Field> {
        self.config.layout@
    }

    /// The node identifier packed into every identifier.
    pub closed spec fn node(&self) -> u128 {
        self.node_id
    }

    /// The identifier with these field values.
    pub open spec fn id_for(&self, timestamp: u128, context: u128, counter: u128) -> VeigoId {
        VeigoId(
            pack_with(
                self.layout(),
                VeigoIdParts { timestamp, context, counter, node_id: self.node() },
            ),
        )
    }

    /// What generation at second `timestamp` may answer for `context`: the
    /// context and timestamp checks decide exactly; past them, either an
    /// identifier with some counter that fits, a counter that does not fit, or
    /// a refusal of the backend.
    pub open spec fn outcome_at(
        &self,
        context: u128,
        timestamp: u128,
        r: Result<VeigoId, VeigoIdError>,
    ) -> bool {
        let l = self.layout();
        if context > max_of(l, FieldKind::Context) {
            r == Err::<VeigoId, VeigoIdError>(
                overflow(CONTEXT_FIELD, context, max_of(l, FieldKind::Context)),
            )
        } else if timestamp > max_of(l, FieldKind::Timestamp) {
            r == Err::<VeigoId, VeigoIdError>(
                overflow(TIMESTAMP_FIELD, timestamp, max_of(l, FieldKind::Timestamp)),
            )
        } else {
            match r {
                Ok(id) => exists|c: u128|
                    c <= max_of(l, FieldKind::Counter) && id == self.id_for(timestamp, context, c),
                Err(e) => backend_refusal(e, timestamp) || exists|c: u128|
                    c > max_of(l, FieldKind::Counter) && e == overflow(
                        COUNTER_FIELD,
                        c,
                        max_of(l, FieldKind::Counter),
                    ),
            }
        }
    }

    /// What generation at the current second may answer for `context`: an
    /// oversized context is refused before the clock is read; otherwise the
    /// answer is one generation at some second may give, or a clock skew when
    /// the clock reads earlier than the epoch.
    pub open spec fn generate_outcome(&self, context: u128, r: Result<VeigoId, VeigoIdError>) -> bool {
        let l = self.layout();
        if context > max_of(l, FieldKind::Context) {
            r == Err::<VeigoId, VeigoIdError>(
                overflow(CONTEXT_FIELD, context, max_of(l, FieldKind::Context)),
            )
        } else {
            r == Err::<VeigoId, VeigoIdError>(clock_before_epoch()) || exists|ts: u128|
                self.outcome_at(context, ts, r)
        }
    }

    /// Validates the configuration, checks the node identifier against its
    /// field and computes the shift and mask of every field.
    pub fn new(config: VeigoConfig, backend: Arc<B>, node_id: u128) -> (r: Result<Self, VeigoIdError>)
        ensures
            construction_error(config.layout@, node_id) matches Some(e) ==> r == Err::<
                Self,
                VeigoIdError,
            >(e),
            construction_error(config.layout@, node_id) is None ==> (r matches Ok(g) && g.config()
                == config && g.layout() == config.layout@ && g.node() == node_id),
    {
        match config.validate() {
            Ok(()) => {},
            Err(e) => {
                return Err(e);
            },
        }
        let ghost l = config.layout@;
        proof {
            lemma_layout_positions(l);
        }
        let mut shift_accumulator: u8 = 0;
        let mut cache = LayoutCache {
            ts_shift: 0,
            ctx_shift: 0,
            ctr_shift: 0,
            node_shift: 0,
            ts_mask: 0,
            ctx_mask: 0,
            ctr_mask: 0,
            node_mask: 0,
        };
        // From the least significant field to the most significant one.
        let mut idx: usize = 4;
        while idx > 0
            invariant
                idx <= 4,
                l == config.layout@,
                valid_layout(l),
                shift_accumulator as nat == offset_below(l, idx - 1),
                forall|k: FieldKind| idx <= #[trigger] index_of(l, k) ==> cache.entry_matches(l, k),
                idx <= index_of(l, FieldKind::NodeId) ==> node_id <= max_of(l, FieldKind::NodeId),
                forall|k: FieldKind| #[trigger] l[index_of(l, k)].kind() == k,
                forall|k: FieldKind| 0 <= #[trigger] index_of(l, k) < 4,
                forall|i: int| 0 <= i < 4 ==> index_of(l, #[trigger] l[i].kind()) == i,
                forall|i: int| 0 <= i < 4 ==> #[trigger] offset_below(l, i) + l[i].width() <= 127,
            decreases idx,
        {
            let i = idx - 1;
            let field = config.layout[i];
            let bits = field.bits();
            let max_val = field.max_value();
            let mask = max_val;
            proof {
                assert(index_of(l, l[i as int].kind()) == i);
                assert(offset_below(l, i - 1) == l[i as int].width() + offset_below(l, i as int));
            }
            match field {
                Field::Timestamp { .. } => {
                    cache.ts_shift = shift_accumulator;
                    cache.ts_mask = mask;
                },
                Field::Context { .. } => {
                    cache.ctx_shift = shift_accumulator;
                    cache.ctx_mask = mask;
                },
                Field::Counter { .. } => {
                    cache.ctr_shift = shift_accumulator;
                    cache.ctr_mask = mask;
                },
                Field::NodeId { .. } => {
                    cache.node_shift = shift_accumulator;
                    if node_id > max_val {
                        return Err(
                            VeigoIdError::FieldOverflow {
                                field: NODE_ID_FIELD,
                                value: node_id,
                                max: max_val,
                            },
                        );
                    }
                    cache.node_mask = mask;
                },
            }
            shift_accumulator = shift_accumulator + bits;
            idx = i;
        }
        proof {
            assert(cache.describes(l)) by {
                assert forall|k: FieldKind| #[trigger] cache.entry_matches(l, k) by {
                    assert(0 <= index_of(l, k));
                }
            }
        }
        Ok(VeigoIdGenerator { backend, config, cache, node_id })
    }

    /// Fails with an overflow of `name` when `value` exceeds `max`.
    fn check_overflow(&self, name: &'static str, value: u128, max: u128) -> (r: Result<
        (),
        VeigoIdError,
    >)
        ensures
            value > max ==> r == Err::<(), VeigoIdError>(overflow(name, value, max)),
            value <= max ==> r is Ok,
    {
        if value > max {
            Err(VeigoIdError::FieldOverflow { field: name, value, max })
        } else {
            Ok(())
        }
    }

    /// Packs a timestamp, a context and a counter with the node identifier,
    /// after checking that the counter fits in its field.
    pub fn encode(&self, timestamp: u128, context: u128, counter: u128) -> (r: Result<
        VeigoId,
        VeigoIdError,
    >)
        ensures
            counter > max_of(self.layout(), FieldKind::Counter) ==> r == Err::<
                VeigoId,
                VeigoIdError,
            >(overflow(COUNTER_FIELD, counter, max_of(self.layout(), FieldKind::Counter))),
            counter <= max_of(self.layout(), FieldKind::Counter) ==> r == Ok::<
                VeigoId,
                VeigoIdError,
            >(self.id_for(timestamp, context, counter)),
    {
        proof {
            use_type_invariant(self);
            lemma_layout_positions(self.config.layout@);
            assert(self.cache.entry_matches(self.config.layout@, FieldKind::Timestamp));
            assert(self.cache.entry_matches(self.config.layout@, FieldKind::Context));
            assert(self.cache.entry_matches(self.config.layout@, FieldKind::Counter));
            assert(self.cache.entry_matches(self.config.layout@, FieldKind::NodeId));
        }
        match self.check_overflow(COUNTER_FIELD, counter, self.cache.ctr_mask) {
            Ok(()) => {},
            Err(e) => {
                return Err(e);
            },
        }
        let id = (timestamp << (self.cache.ts_shift as u128)) | (context << (
        self.cache.ctx_shift as u128)) | (self.node_id << (self.cache.node_shift as u128)) | (
        counter << (self.cache.ctr_shift as u128));
        Ok(VeigoId::from(id))
    }

    /// Issues an identifier for `context` at second `timestamp`: checks the
    /// context and the timestamp, asks the backend for the next counter,
    /// checks the counter and packs the fields.
    pub fn generate_at(&self, context: u128, timestamp: u128) -> (r: Result<VeigoId, VeigoIdError>)
        ensures
            self.outcome_at(context, timestamp, r),
    {
        proof {
            use_type_invariant(self);
            lemma_layout_positions(self.config.layout@);
            assert(self.cache.entry_matches(self.config.layout@, FieldKind::Timestamp));
            assert(self.cache.entry_matches(self.config.layout@, FieldKind::Context));
        }
        match self.check_overflow(CONTEXT_FIELD, context, self.cache.ctx_mask) {
            Ok(()) => {},
            Err(e) => {
                return Err(e);
            },
        }
        match self.check_overflow(TIMESTAMP_FIELD, timestamp, self.cache.ts_mask) {
            Ok(()) => {},
            Err(e) => {
                return Err(e);
            },
        }
        let counter = match self.backend.next_sequence(timestamp, context) {
            Ok(c) => c,
            Err(e) => {
                return Err(e);
            },
        };
        self.encode(timestamp, context, counter)
    }

    /// Issues an identifier for `context` at the current second since the epoch.
    pub fn generate(&self, context: u128) -> (r: Result<VeigoId, VeigoIdError>)
        ensures
            self.generate_outcome(context, r),
    {
        proof {
            use_type_invariant(self);
            assert(self.cache.entry_matches(self.config.layout@, FieldKind::Context));
        }
        match self.check_overflow(CONTEXT_FIELD, context, self.cache.ctx_mask) {
            Ok(()) => {},
            Err(e) => {
                return Err(e);
            },
        }
        let now = system_now();
        match whole_seconds_between(self.config.epoch, now) {
            Some(secs) => self.generate_at(context, secs as u128),
            None => Err(VeigoIdError::ClockSkew { now: 0, last: 0 }),
        }
    }

    /// Splits an identifier into its fields with the same shifts and masks
    /// that packing uses. Any integer decodes; nothing is checked.
    pub fn decode(&self, id: VeigoId) -> (r: VeigoIdParts)
        ensures
            r == unpack_with(self.layout(), id.0),
    {
        proof {
            use_type_invariant(self);
            lemma_layout_positions(self.config.layout@);
            assert(self.cache.entry_matches(self.config.layout@, FieldKind::Timestamp));
            assert(self.cache.entry_matches(self.config.layout@, FieldKind::Context));
            assert(self.cache.entry_matches(self.config.layout@, FieldKind::Counter));
            assert(self.cache.entry_matches(self.config.layout@, FieldKind::NodeId));
        }
        let raw: u128 = id.into();
        VeigoIdParts {
            timestamp: (raw >> (self.cache.ts_shift as u128)) & self.cache.ts_mask,
            context: (raw >> (self.cache.ctx_shift as u128)) & self.cache.ctx_mask,
            counter: (raw >> (self.cache.ctr_shift as u128)) & self.cache.ctr_mask,
            node_id: (raw >> (self.cache.node_shift as u128)) & self.cache.node_mask,
        }
    }
}

/// The fields of the identifier for call `i` of `calls`, served by a backend
/// that starts in state `s`, on node `node`.
pub open spec fn issued_parts(
    s: SequenceModel,
    calls: Seq<(u128, u128)>,
    i: nat,
    node: u128,
) -> VeigoIdParts {
    VeigoIdParts {
        timestamp: calls[i as int].0,
        context: calls[i as int].1,
        counter: answer(s, calls, i)->Ok_0,
        node_id: node,
    }
}

/// Uniqueness of identifiers: for any sequence of calls against one backend
/// state and one node, two calls that both succeed, with every field fitting
/// its width, give identifiers that decode to different field tuples.
pub proof fn lemma_issued_ids_unique(
    l: Seq<Field>,
    node: u128,
    s: SequenceModel,
    calls: Seq<(u128, u128)>,
    i: nat,
    j: nat,
)
    requires
        valid_layout(l),
        i < j < calls.len(),
        answer(s, calls, i) is Ok,
        answer(s, calls, j) is Ok,
        fits(l, issued_parts(s, calls, i, node)),
        fits(l, issued_parts(s, calls, j, node)),
    ensures
        unpack_with(l, pack_with(l, issued_parts(s, calls, i, node))) != unpack_with(
            l,
            pack_with(l, issued_parts(s, calls, j, node)),
        ),
{
    lemma_round_trip(l, issued_parts(s, calls, i, node));
    lemma_round_trip(l, issued_parts(s, calls, j, node));
    if calls[i as int] == calls[j as int] {
        lemma_counters_unique(s, calls, i, j);
    }
}

} // verus!
