//! The mathematical model of the adapter: its abstract state and the
//! transition each lifecycle callback performs on it.
//!
//! The abstract state has two parts: the registered spans, in registration
//! order, and the trace of profiler primitives emitted so far. Each callback
//! of the two host attachments is specified as one transition on this state;
//! the laws about the adapter are proved of the transitions.

use vstd::prelude::*;

use crate::emitter::ProfOp;
use crate::registry::name_for;
use crate::registry::registered;

verus! {

/// Abstract state of one adapter instance.
pub struct TraceState {
    /// Registered spans as `(identifier, name)` pairs, oldest first.
    pub spans: Seq<(u64, Seq<char>)>,
    /// Profiler primitives emitted so far, oldest first.
    pub emitted: Seq<ProfOp>,
}

/// Registering a span appends its record and emits nothing.
pub open spec fn register_step(st: TraceState, id: u64, name: Seq<char>) -> TraceState {
    TraceState { spans: st.spans.push((id, name)), emitted: st.emitted }
}

/// Entering a registered span emits a range begin labeled with the name
/// registered for `id`; the registry is untouched.
pub open spec fn enter_step(st: TraceState, id: u64) -> TraceState
    recommends
        registered(st.spans, id),
{
    TraceState {
        spans: st.spans,
        emitted: st.emitted.push(ProfOp::RangePush(name_for(st.spans, id).unwrap())),
    }
}

/// Exiting a span emits a bare range end; the registry is untouched. No
/// identifier reaches the profiler: the range end matches the most recently
/// begun range on the calling thread, per the host's LIFO discipline.
pub open spec fn exit_step(st: TraceState) -> TraceState {
    TraceState { spans: st.spans, emitted: st.emitted.push(ProfOp::RangePop) }
}

/// An event emits exactly one instant marker carrying its rendered text; the
/// registry is untouched.
pub open spec fn event_step(st: TraceState, text: Seq<char>) -> TraceState {
    TraceState { spans: st.spans, emitted: st.emitted.push(ProfOp::Mark(text)) }
}

/// Recording field values or a follows-from relation changes nothing: the
/// adapter surfaces neither to the profiler.
pub open spec fn record_step(st: TraceState) -> TraceState {
    st
}

} // verus!
