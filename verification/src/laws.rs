//! Laws of the adapter, proved of the transition model in [`crate::model`].
//!
//! Together with the uniqueness law in [`crate::ids`] and the lookup law in
//! [`crate::registry`], these pin down what the adapter emits: nested
//! enter/exit pairs become properly nested push/pop pairs, an event becomes
//! exactly one instant marker, and recording field values or follows-from
//! relations emits nothing at all.

use vstd::prelude::*;

use crate::emitter::ProfOp;
use crate::model::TraceState;
use crate::model::enter_step;
use crate::model::event_step;
use crate::model::exit_step;
use crate::model::record_step;
use crate::registry::name_for;
use crate::registry::registered;

verus! {

/// `record_step` applied `n` times over.
pub open spec fn record_steps(st: TraceState, n: nat) -> TraceState
    decreases n,
{
    if n == 0 {
        st
    } else {
        record_step(record_steps(st, (n - 1) as nat))
    }
}

/// Push/pop pairing: entering span `a`, then span `b`, then exiting twice
/// emits exactly `push(name of a), push(name of b), pop, pop`, in that
/// order, after everything emitted before; the registered spans do not
/// change.
pub proof fn lemma_push_pop_pairing(st: TraceState, a: u64, b: u64)
    requires
        registered(st.spans, a),
        registered(st.spans, b),
    ensures
        ({
            let end = exit_step(exit_step(enter_step(enter_step(st, a), b)));
            &&& end.spans == st.spans
            &&& end.emitted == st.emitted + seq![
                ProfOp::RangePush(name_for(st.spans, a).unwrap()),
                ProfOp::RangePush(name_for(st.spans, b).unwrap()),
                ProfOp::RangePop,
                ProfOp::RangePop,
            ]
        }),
{
    let end = exit_step(exit_step(enter_step(enter_step(st, a), b)));
    assert(end.emitted =~= st.emitted + seq![
        ProfOp::RangePush(name_for(st.spans, a).unwrap()),
        ProfOp::RangePush(name_for(st.spans, b).unwrap()),
        ProfOp::RangePop,
        ProfOp::RangePop,
    ]);
}

/// Event passthrough: an event with rendered text `text` emits exactly one
/// instant marker carrying `text` — nothing else, and no push or pop — and
/// leaves the registered spans untouched.
pub proof fn lemma_event_passthrough(st: TraceState, text: Seq<char>)
    ensures
        event_step(st, text).spans == st.spans,
        event_step(st, text).emitted == st.emitted.push(ProfOp::Mark(text)),
        event_step(st, text).emitted.len() == st.emitted.len() + 1,
        event_step(st, text).emitted.last() == ProfOp::Mark(text),
{
}

/// No-op fields: recording field values or follows-from relations any
/// number of times emits no profiler call and leaves the registry exactly
/// as it was.
pub proof fn lemma_record_noop(st: TraceState, n: nat)
    ensures
        record_steps(st, n) == st,
    decreases n,
{
    if n > 0 {
        lemma_record_noop(st, (n - 1) as nat);
    }
}

} // verus!
