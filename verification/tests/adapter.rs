use nvtx_tracing::IdAllocator;
use nvtx_tracing::NvtxLayer;
use nvtx_tracing::NvtxSubscriber;
use nvtx_tracing::ProfilerCall;
use nvtx_tracing::SpanRegistry;

fn push(label: &str) -> ProfilerCall {
    ProfilerCall::RangePush(String::from(label))
}

fn pop() -> ProfilerCall {
    ProfilerCall::RangePop
}

fn mark(text: &str) -> ProfilerCall {
    ProfilerCall::Mark(String::from(text))
}

#[test]
fn fresh_subscriber_is_empty() {
    let s = NvtxSubscriber::new();
    assert_eq!(s.span_count(), 0);
    assert!(s.emitted().is_empty());
    assert!(s.enabled());
}

#[test]
fn allocator_ids_start_at_one_and_increase() {
    let mut alloc = IdAllocator::new();
    assert!(alloc.can_allocate());
    assert_eq!(alloc.allocate(), 1);
    assert_eq!(alloc.allocate(), 2);
    assert_eq!(alloc.allocate(), 3);
}

#[test]
fn allocator_never_repeats_an_id() {
    let mut alloc = IdAllocator::new();
    let mut seen: Vec<u64> = Vec::new();
    let mut n: usize = 0;
    while n < 10 {
        let id = alloc.allocate();
        assert!(!seen.contains(&id));
        seen.push(id);
        n += 1;
    }
    assert_eq!(seen.first(), Some(&1));
}

#[test]
fn shared_allocator_keeps_ids_distinct_across_subscribers() {
    // one process-scoped allocator, two coexisting adapter instances:
    // every created span still gets its own identifier
    let mut alloc = IdAllocator::new();
    let mut first = NvtxSubscriber::new();
    let mut second = NvtxSubscriber::new();
    let a = first.new_span(alloc.allocate(), "in_first");
    let b = second.new_span(alloc.allocate(), "in_second");
    let c = first.new_span(alloc.allocate(), "again_in_first");
    assert_eq!(a, 1);
    assert_eq!(b, 2);
    assert_eq!(c, 3);
    assert!(a != b && b != c && a != c);
    assert!(first.knows_span(a) && !first.knows_span(b));
    assert!(second.knows_span(b) && !second.knows_span(a));
}

#[test]
fn lookup_returns_registered_name() {
    let mut s = NvtxSubscriber::new();
    let id = s.new_span(1, "load_config");
    assert_eq!(s.span_name(id), "load_config");
}

#[test]
fn registry_keeps_names_verbatim() {
    let mut reg = SpanRegistry::new();
    reg.register(7, String::from("alpha"));
    reg.register(9, String::from("beta gamma"));
    assert_eq!(reg.len(), 2);
    assert_eq!(reg.lookup(7), "alpha");
    assert_eq!(reg.lookup(9), "beta gamma");
}

#[test]
fn registry_first_registration_wins() {
    let mut reg = SpanRegistry::new();
    reg.register(5, String::from("first"));
    reg.register(5, String::from("second"));
    assert_eq!(reg.lookup(5), "first");
}

#[test]
fn unregistered_id_is_unknown() {
    let mut s = NvtxSubscriber::new();
    assert!(!s.knows_span(42));
    let id = s.new_span(1, "known");
    assert!(s.knows_span(id));
    assert!(!s.knows_span(id + 1));
}

#[test]
fn entering_unregistered_id_is_refused_and_emits_nothing() {
    let mut s = NvtxSubscriber::new();
    s.new_span(1, "known");
    assert!(!s.try_enter(2));
    assert!(s.emitted().is_empty());
    assert_eq!(s.span_count(), 1);
    assert!(s.try_enter(1));
    assert_eq!(s.emitted(), &vec![push("known")]);
}

#[test]
fn layer_refuses_unregistered_enter() {
    let mut l = NvtxLayer::new();
    l.on_new_span(3, "known");
    assert!(!l.try_on_enter(4));
    assert!(l.emitted().is_empty());
    assert_eq!(l.span_count(), 1);
    assert!(l.try_on_enter(3));
    assert_eq!(l.emitted(), &vec![push("known")]);
}

#[test]
fn empty_registry_knows_nothing() {
    let reg = SpanRegistry::new();
    assert_eq!(reg.len(), 0);
    assert!(!reg.contains(0));
    assert!(!reg.contains(1));
}

#[test]
fn push_pop_pairing() {
    let mut s = NvtxSubscriber::new();
    let a = s.new_span(1, "A");
    let b = s.new_span(2, "B");
    s.enter(a);
    s.enter(b);
    s.exit(b);
    s.exit(a);
    assert_eq!(s.emitted(), &vec![push("A"), push("B"), pop(), pop()]);
}

#[test]
fn event_emits_exactly_one_mark() {
    let mut s = NvtxSubscriber::new();
    s.event("a log line");
    assert_eq!(s.emitted(), &vec![mark("a log line")]);
    assert_eq!(s.span_count(), 0);
}

#[test]
fn record_calls_emit_nothing() {
    let mut s = NvtxSubscriber::new();
    let id = s.new_span(1, "quiet");
    s.record(id);
    s.record(id);
    s.record_follows_from(id, id);
    s.record_follows_from(id, 99);
    assert!(s.emitted().is_empty());
    assert_eq!(s.span_count(), 1);
    assert_eq!(s.span_name(id), "quiet");
}

#[test]
fn concrete_scenario() {
    let mut ids = IdAllocator::new();
    let mut s = NvtxSubscriber::new();
    let load_config = s.new_span(ids.allocate(), "load_config");
    assert_eq!(load_config, 1);
    s.enter(load_config);
    let parse = s.new_span(ids.allocate(), "parse");
    assert_eq!(parse, 2);
    s.enter(parse);
    s.exit(parse);
    s.event("parse complete");
    s.exit(load_config);
    assert_eq!(
        s.emitted(),
        &vec![
            push("load_config"),
            push("parse"),
            pop(),
            mark("parse complete"),
            pop(),
        ]
    );
}

#[test]
fn empty_name_is_preserved() {
    let mut s = NvtxSubscriber::new();
    let id = s.new_span(1, "");
    s.enter(id);
    assert_eq!(s.span_name(id), "");
    assert_eq!(s.emitted(), &vec![push("")]);
}

#[test]
fn layer_registers_host_allocated_ids() {
    let mut l = NvtxLayer::new();
    assert_eq!(l.span_count(), 0);
    l.on_new_span(10, "host_span");
    assert!(l.knows_span(10));
    assert!(!l.knows_span(11));
    l.on_enter(10);
    l.on_exit(10);
    l.on_event("layer event");
    assert_eq!(
        l.emitted(),
        &vec![push("host_span"), pop(), mark("layer event")]
    );
}

#[test]
fn layer_first_registration_wins_on_enter() {
    let mut l = NvtxLayer::new();
    l.on_new_span(5, "first");
    l.on_new_span(5, "second");
    l.on_enter(5);
    assert_eq!(l.emitted(), &vec![push("first")]);
    assert_eq!(l.span_count(), 2);
}
