//! Adapter that translates span and event lifecycle callbacks from a
//! structured tracing host into profiler range markers.
//!
//! When application code enters a named unit of work (a span), the adapter
//! emits a profiler range begin labeled with the span's name; when the span
//! is exited, a range end; when a log-like event fires, an instant marker
//! carrying the event's rendered text.
//!
//! Two attachments to the host exist for the same core: [`NvtxSubscriber`]
//! acts as the sole collector of tracing data; [`NvtxLayer`] composes
//! alongside sibling collectors and receives the same callbacks
//! non-exclusively. Both keep an append-only [`SpanRegistry`] from identifier
//! to name, consulted on every span entry, and emit through a
//! [`RangeEmitter`].
//!
//! Span identifiers must never be reused within a process run, however many
//! adapter instances coexist. They therefore come from a counter that lives
//! outside any single instance: for the standalone attachment, one
//! process-scoped [`IdAllocator`] that every `NvtxSubscriber` in the process
//! draws from (the attachment owns it, since a `static` cannot live in this
//! library); for the layered attachment, the host's own allocator. Freshness
//! of each identifier is a precondition of span creation here, checkable
//! through [`NvtxSubscriber::knows_span`].
//!
//! The adapter translates; it does not verify the host's discipline. Every
//! entered span must be exited exactly once, in LIFO order per thread, or
//! the profiler's ranges will silently mis-pair. Identifiers passed to
//! `enter` must have been registered first: that is the host's contract, and
//! it is a precondition here, not a recoverable error; the checked variants
//! [`NvtxSubscriber::try_enter`] and [`NvtxLayer::try_on_enter`] let a caller
//! detect the violation, with nothing emitted and nothing altered, and fail
//! as loudly as it sees fit.

use vstd::prelude::*;

pub mod emitter;
pub mod ids;
pub mod laws;
pub mod model;
pub mod registry;

pub use emitter::ProfilerCall;
pub use emitter::RangeEmitter;
pub use ids::IdAllocator;
pub use registry::SpanRecord;
pub use registry::SpanRegistry;

use emitter::ProfOp;
use model::TraceState;
use model::enter_step;
use model::event_step;
use model::exit_step;
use model::record_step;
use model::register_step;
use registry::lemma_lookup_after_register;
use registry::name_for;
use registry::nul_free;
use registry::registered;

verus! {

/// The standalone attachment: the sole collector of tracing data for the
/// process. Span identifiers reach it from the process-scoped allocator the
/// attachment owns; it registers every new span's name under its identifier
/// and translates enter/exit/event callbacks into profiler primitives.
pub struct NvtxSubscriber {
    registry: SpanRegistry,
    emitter: RangeEmitter,
}

impl View for NvtxSubscriber {
    type V = TraceState;

    closed spec fn view(&self) -> TraceState {
        TraceState { spans: self.registry@, emitted: self.emitter@ }
    }
}

impl NvtxSubscriber {
    /// Invariant: the registry is well formed (every stored name can be
    /// handed to the profiler).
    pub closed spec fn wf(&self) -> bool {
        self.registry.wf()
    }

    /// A fresh subscriber: nothing registered, nothing emitted.
    pub fn new() -> (s: Self)
        ensures
            s.wf(),
            s@.spans == Seq::<(u64, Seq<char>)>::empty(),
            s@.emitted == Seq::<ProfOp>::empty(),
    {
        NvtxSubscriber { registry: SpanRegistry::new(), emitter: RangeEmitter::new() }
    }

    /// The adapter takes part in no filtering: every span and event is
    /// enabled and will be translated.
    pub fn enabled(&self) -> (b: bool)
        ensures
            b,
    {
        true
    }

    /// Creates a span: registers `name` under `id` and returns the
    /// identifier for the host to pass back on every later enter/exit for
    /// the span. Nothing is emitted.
    ///
    /// The identifier must be fresh — never registered here before. The
    /// caller obtains it from the process-scoped [`IdAllocator`], whose ids
    /// never repeat, and can check freshness with [`Self::knows_span`]; a
    /// collision would mean the counter was shared or reset wrongly, and
    /// must fail loudly.
    pub fn new_span(&mut self, id: u64, name: &str) -> (r: u64)
        requires
            old(self).wf(),
            nul_free(name@),
            !registered(old(self)@.spans, id),
        ensures
            final(self).wf(),
            final(self)@ == register_step(old(self)@, id, name@),
            r == id,
            name_for(final(self)@.spans, id) == Some(name@),
    {
        self.registry.register(id, name.to_owned());
        proof {
            lemma_lookup_after_register(old(self).registry@, id, name@);
        }
        id
    }

    /// Field values recorded after span creation are not surfaced to the
    /// profiler: nothing is emitted and the registry is untouched.
    pub fn record(&mut self, _id: u64)
        ensures
            final(self)@ == record_step(old(self)@),
            final(self).wf() == old(self).wf(),
    {
    }

    /// Follows-from relations between spans are not modeled: nothing is
    /// emitted and the registry is untouched.
    pub fn record_follows_from(&mut self, _id: u64, _follows: u64)
        ensures
            final(self)@ == record_step(old(self)@),
            final(self).wf() == old(self).wf(),
    {
    }

    /// An event fired: emits exactly one instant marker carrying the event's
    /// rendered text. No range begins or ends.
    pub fn event(&mut self, text: &str)
        requires
            old(self).wf(),
            nul_free(text@),
        ensures
            final(self).wf(),
            final(self)@ == event_step(old(self)@, text@),
    {
        self.emitter.mark(text);
    }

    /// A span was entered: looks up the name registered for `id` and emits a
    /// range begin labeled with it.
    ///
    /// Entering an identifier that was never registered is a contract
    /// violation by the host, excluded by the precondition; the caller must
    /// fail loudly rather than substitute a label. [`Self::try_enter`] is
    /// the checked form.
    pub fn enter(&mut self, id: u64)
        requires
            old(self).wf(),
            registered(old(self)@.spans, id),
        ensures
            final(self).wf(),
            final(self)@ == enter_step(old(self)@, id),
    {
        let name = self.registry.lookup(id);
        self.emitter.push(name);
    }

    /// Registration before entry, checked: enters the span exactly when its
    /// identifier is registered, and reports which. On an unregistered
    /// identifier nothing is emitted — in particular no range begin with a
    /// default or wrong label — and the registry is untouched; the caller
    /// turns that report into the documented fatal failure.
    pub fn try_enter(&mut self, id: u64) -> (entered: bool)
        requires
            old(self).wf(),
        ensures
            final(self).wf(),
            entered == registered(old(self)@.spans, id),
            entered ==> final(self)@ == enter_step(old(self)@, id),
            !entered ==> final(self)@ == old(self)@,
    {
        if self.registry.contains(id) {
            self.enter(id);
            true
        } else {
            false
        }
    }

    /// A span was exited: emits a bare range end. The identifier does not
    /// reach the profiler; the end matches the most recently begun range on
    /// the calling thread, per the host's LIFO enter/exit discipline.
    pub fn exit(&mut self, _id: u64)
        requires
            old(self).wf(),
        ensures
            final(self).wf(),
            final(self)@ == exit_step(old(self)@),
    {
        self.emitter.pop();
    }

    /// Whether a span with identifier `id` has been registered.
    pub fn knows_span(&self, id: u64) -> (b: bool)
        ensures
            b == registered(self@.spans, id),
    {
        self.registry.contains(id)
    }

    /// The name registered for `id`.
    pub fn span_name(&self, id: u64) -> (name: &str)
        requires
            self.wf(),
            registered(self@.spans, id),
        ensures
            Some(name@) == name_for(self@.spans, id),
    {
        self.registry.lookup(id)
    }

    /// How many spans have been registered.
    pub fn span_count(&self) -> (n: usize)
        ensures
            n == self@.spans.len(),
    {
        self.registry.len()
    }

    /// The trace of every profiler primitive emitted so far, oldest first.
    pub fn emitted(&self) -> (c: &Vec<ProfilerCall>)
        ensures
            c@.map_values(|x: ProfilerCall| x@) == self@.emitted,
    {
        self.emitter.calls()
    }
}

/// The layered attachment: composes alongside sibling collectors and
/// receives the same lifecycle callbacks non-exclusively. The host allocates
/// span identifiers in this mode; only name registration and the
/// enter/exit/event translation happen here, against a private registry.
pub struct NvtxLayer {
    registry: SpanRegistry,
    emitter: RangeEmitter,
}

impl View for NvtxLayer {
    type V = TraceState;

    closed spec fn view(&self) -> TraceState {
        TraceState { spans: self.registry@, emitted: self.emitter@ }
    }
}

impl NvtxLayer {
    /// Invariant: the registry is well formed.
    pub closed spec fn wf(&self) -> bool {
        self.registry.wf()
    }

    /// A fresh layer: nothing registered, nothing emitted.
    pub fn new() -> (l: Self)
        ensures
            l.wf(),
            l@.spans == Seq::<(u64, Seq<char>)>::empty(),
            l@.emitted == Seq::<ProfOp>::empty(),
    {
        NvtxLayer { registry: SpanRegistry::new(), emitter: RangeEmitter::new() }
    }

    /// A new span was created by the host, which allocated `id` itself:
    /// registers `name` under it. Nothing is emitted. If the host hands out
    /// an identifier twice, the earlier registration wins on lookup.
    pub fn on_new_span(&mut self, id: u64, name: &str)
        requires
            old(self).wf(),
            nul_free(name@),
        ensures
            final(self).wf(),
            final(self)@ == register_step(old(self)@, id, name@),
    {
        self.registry.register(id, name.to_owned());
    }

    /// An event fired: emits exactly one instant marker carrying the event's
    /// rendered text. No range begins or ends.
    pub fn on_event(&mut self, text: &str)
        requires
            old(self).wf(),
            nul_free(text@),
        ensures
            final(self).wf(),
            final(self)@ == event_step(old(self)@, text@),
    {
        self.emitter.mark(text);
    }

    /// A span was entered: looks up the name registered for `id` and emits a
    /// range begin labeled with it. Entering an unregistered identifier is a
    /// contract violation by the host, excluded by the precondition;
    /// [`Self::try_on_enter`] is the checked form.
    pub fn on_enter(&mut self, id: u64)
        requires
            old(self).wf(),
            registered(old(self)@.spans, id),
        ensures
            final(self).wf(),
            final(self)@ == enter_step(old(self)@, id),
    {
        let name = self.registry.lookup(id);
        self.emitter.push(name);
    }

    /// Registration before entry, checked: enters the span exactly when its
    /// identifier is registered, and reports which. On an unregistered
    /// identifier nothing is emitted — in particular no range begin with a
    /// default or wrong label — and the registry is untouched; the caller
    /// turns that report into the documented fatal failure.
    pub fn try_on_enter(&mut self, id: u64) -> (entered: bool)
        requires
            old(self).wf(),
        ensures
            final(self).wf(),
            entered == registered(old(self)@.spans, id),
            entered ==> final(self)@ == enter_step(old(self)@, id),
            !entered ==> final(self)@ == old(self)@,
    {
        if self.registry.contains(id) {
            self.on_enter(id);
            true
        } else {
            false
        }
    }

    /// A span was exited: emits a bare range end.
    pub fn on_exit(&mut self, _id: u64)
        requires
            old(self).wf(),
        ensures
            final(self).wf(),
            final(self)@ == exit_step(old(self)@),
    {
        self.emitter.pop();
    }

    /// Whether a span with identifier `id` has been registered.
    pub fn knows_span(&self, id: u64) -> (b: bool)
        ensures
            b == registered(self@.spans, id),
    {
        self.registry.contains(id)
    }

    /// How many spans have been registered.
    pub fn span_count(&self) -> (n: usize)
        ensures
            n == self@.spans.len(),
    {
        self.registry.len()
    }

    /// The trace of every profiler primitive emitted so far, oldest first.
    pub fn emitted(&self) -> (c: &Vec<ProfilerCall>)
        ensures
            c@.map_values(|x: ProfilerCall| x@) == self@.emitted,
    {
        self.emitter.calls()
    }
}

} // verus!
