use std::collections::HashMap;
use vstd::prelude::*;

use crate::errors::{VeigoIdError, COUNTER_FIELD};

verus! {

/// The abstract state of a sequence backend: the last timestamp it served and,
/// for that timestamp only, the current counter of each context.
pub ghost struct SequenceModel {
    pub last: u128,
    pub counters: Map<u128, u128>,
}

/// The error for a context whose counter cannot grow any further.
pub open spec fn exhausted() -> VeigoIdError {
    VeigoIdError::FieldOverflow { field: COUNTER_FIELD, value: u128::MAX, max: u128::MAX }
}

/// One allocation: the next state and the answer for `timestamp` and `context`.
///
/// A later timestamp starts a new second: every counter is dropped and the
/// context starts at 0. The same timestamp increments the context's counter,
/// which counts as 0 when absent, so a context first seen in a running second
/// gets 1. An earlier timestamp is refused and nothing changes.
pub open spec fn next_spec(s: SequenceModel, timestamp: u128, context: u128) -> (
    SequenceModel,
    Result<u128, VeigoIdError>,
) {
    if timestamp > s.last {
        (SequenceModel { last: timestamp, counters: map![context => 0u128] }, Ok(0u128))
    } else if timestamp == s.last {
        let n: int = if s.counters.contains_key(context) {
            s.counters[context] + 1
        } else {
            1
        };
        if n > u128::MAX {
            (s, Err(exhausted()))
        } else {
            (
                SequenceModel { last: s.last, counters: s.counters.insert(context, n as u128) },
                Ok(n as u128),
            )
        }
    } else {
        (s, Err(VeigoIdError::ClockSkew { now: timestamp, last: s.last }))
    }
}

/// The state after serving the first `m` of `calls`, each a (timestamp, context) pair.
pub open spec fn state_after(s: SequenceModel, calls: Seq<(u128, u128)>, m: nat) -> SequenceModel
    decreases m,
{
    if m == 0 {
        s
    } else {
        next_spec(state_after(s, calls, (m - 1) as nat), calls[m - 1].0, calls[m - 1].1).0
    }
}

/// The answer to call `i` of `calls`.
pub open spec fn answer(s: SequenceModel, calls: Seq<(u128, u128)>, i: nat) -> Result<
    u128,
    VeigoIdError,
> {
    next_spec(state_after(s, calls, i), calls[i as int].0, calls[i as int].1).1
}

/// Counter `n` handed out for `call` stays covered by state `t`: its second is
/// not later than the recorded one and, in the recorded second, the context's
/// counter has reached `n`.
pub open spec fn covers(t: SequenceModel, call: (u128, u128), n: u128) -> bool {
    &&& call.0 <= t.last
    &&& call.0 == t.last ==> t.counters.contains_key(call.1) && n <= t.counters[call.1]
}

proof fn lemma_answer_stays_covered(s: SequenceModel, calls: Seq<(u128, u128)>, k: nat, m: nat)
    requires
        k < m <= calls.len(),
        answer(s, calls, k) is Ok,
    ensures
        covers(state_after(s, calls, m), calls[k as int], answer(s, calls, k)->Ok_0),
    decreases m,
{
    if m > k + 1 {
        lemma_answer_stays_covered(s, calls, k, (m - 1) as nat);
    }
}

/// Uniqueness: whatever state a backend starts from, two successful calls of
/// any sequence that present the same timestamp and context never receive the
/// same counter.
pub proof fn lemma_counters_unique(s: SequenceModel, calls: Seq<(u128, u128)>, i: nat, j: nat)
    requires
        i < j < calls.len(),
        calls[i as int] == calls[j as int],
        answer(s, calls, i) is Ok,
        answer(s, calls, j) is Ok,
    ensures
        answer(s, calls, i) != answer(s, calls, j),
{
    lemma_answer_stays_covered(s, calls, i, j);
}

/// Counting up: when calls all present one context at one second later than
/// the recorded one, the call at index `n` receives counter `n`.
pub proof fn lemma_counts_up(s: SequenceModel, calls: Seq<(u128, u128)>, n: nat)
    requires
        n < calls.len(),
        calls.len() <= u128::MAX,
        calls[0].0 > s.last,
        forall|i: int| 0 <= i < calls.len() ==> #[trigger] calls[i] == calls[0],
    ensures
        answer(s, calls, n) == Ok::<u128, VeigoIdError>(n as u128),
    decreases n,
{
    if n > 0 {
        lemma_counts_up(s, calls, (n - 1) as nat);
        lemma_state_counts(s, calls, n);
    }
}

proof fn lemma_state_counts(s: SequenceModel, calls: Seq<(u128, u128)>, m: nat)
    requires
        0 < m <= calls.len(),
        calls.len() <= u128::MAX,
        calls[0].0 > s.last,
        forall|i: int| 0 <= i < calls.len() ==> #[trigger] calls[i] == calls[0],
    ensures
        state_after(s, calls, m).last == calls[0].0,
        state_after(s, calls, m).counters.contains_key(calls[0].1),
        state_after(s, calls, m).counters[calls[0].1] == m - 1,
    decreases m,
{
    assert(calls[m - 1] == calls[0]);
    if m > 1 {
        lemma_state_counts(s, calls, (m - 1) as nat);
    } else {
        assert(state_after(s, calls, 0) == s);
    }
}

/// Reset on a later second: whatever counters the state held, a call at a
/// later timestamp records that timestamp, keeps no counter but the caller's,
/// sets that one to 0 and answers 0; every context then counts afresh.
pub proof fn lemma_reset_on_advance(s: SequenceModel, timestamp: u128, context: u128)
    requires
        timestamp > s.last,
    ensures
        next_spec(s, timestamp, context) == (
        SequenceModel { last: timestamp, counters: map![context => 0u128] },
        Ok::<u128, VeigoIdError>(0),
        ),
        next_spec(s, timestamp, context).0 == next_spec(
            SequenceModel { last: s.last, counters: Map::empty() },
            timestamp,
            context,
        ).0,
        forall|other: u128|
            other != context ==> !(#[trigger] next_spec(s, timestamp, context).0.counters.contains_key(
                other,
            )),
{
}

/// Clock skew: a call at a timestamp earlier than the recorded one is refused
/// with exactly that timestamp and the recorded one, and changes nothing.
pub proof fn lemma_clock_skew(s: SequenceModel, timestamp: u128, context: u128)
    requires
        timestamp < s.last,
    ensures
        next_spec(s, timestamp, context) == (
        s,
        Err::<u128, VeigoIdError>(VeigoIdError::ClockSkew { now: timestamp, last: s.last }),
        ),
{
}

/// Sequence state kept in process memory: the last timestamp and the counters
/// of the contexts seen at that timestamp.
#[derive(Debug)]
pub struct MemoryState {
    last_timestamp: u128,
    counters: HashMap<u128, u128>,
}

impl View for MemoryState {
    type V = SequenceModel;

    closed spec fn view(&self) -> SequenceModel {
        SequenceModel { last: self.last_timestamp, counters: self.counters@ }
    }
}

impl MemoryState {
    /// A state that has served nothing: timestamp 0 and no counters.
    pub fn new() -> (s: Self)
        ensures
            s@ == (SequenceModel { last: 0, counters: Map::empty() }),
    {
        MemoryState { last_timestamp: 0, counters: HashMap::new() }
    }

    /// Serves one allocation and moves to the next state, as `next_spec` says.
    pub fn next_sequence(&mut self, timestamp: u128, context: u128) -> (r: Result<
        u128,
        VeigoIdError,
    >)
        ensures
            (final(self)@, r) == next_spec(old(self)@, timestamp, context),
    {
        broadcast use vstd::std_specs::hash::group_hash_axioms;

        if timestamp > self.last_timestamp {
            self.last_timestamp = timestamp;
            self.counters.clear();
            self.counters.insert(context, 0);
            proof {
                assert(self.counters@ =~= map![context => 0u128]);
            }
            Ok(0)
        } else if timestamp == self.last_timestamp {
            let current: u128 = match self.counters.get(&context) {
                Some(c) => *c,
                None => 0,
            };
            if current == u128::MAX {
                Err(VeigoIdError::FieldOverflow {
                    field: COUNTER_FIELD,
                    value: u128::MAX,
                    max: u128::MAX,
                })
            } else {
                let n = current + 1;
                self.counters.insert(context, n);
                Ok(n)
            }
        } else {
            Err(VeigoIdError::ClockSkew { now: timestamp, last: self.last_timestamp })
        }
    }
}

} // verus!
