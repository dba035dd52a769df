use tracing_honeycomb::{
    Builder, CapturingReporter, Event, FlatRecord, HoneycombVisitor, Reporter, Span, SpanId,
    StdoutReporter, Timestamp, TraceId, Value,
};

fn span_named(name: &str, trace_id: TraceId, span_id: SpanId) -> Span {
    Span {
        id: span_id,
        trace_id,
        parent_id: None,
        name: name.to_owned(),
        initialized_at: Timestamp { millis: 10_000 },
        completed_at: Timestamp { millis: 10_005 },
        values: HoneycombVisitor::new(),
    }
}

fn event_in(trace_id: TraceId, span_id: SpanId) -> Event {
    Event {
        trace_id,
        span_id,
        name: "note".to_owned(),
        timestamp: Timestamp { millis: 10_001 },
        values: HoneycombVisitor::new(),
    }
}

#[test]
fn unsampled_telemetry_reports_every_span() {
    let builder = Builder::new_with_reporter(CapturingReporter::new(), "test-service");
    let mut telemetry = builder.build();
    let span = span_named("work", TraceId(1), SpanId { tracing_id: 1 });
    telemetry.report_span(span);
    let records = telemetry.reporter().records();
    assert_eq!(records.len(), 1);
    let (flat, ts) = &records[0];
    assert_eq!(*ts, Timestamp { millis: 10_000 });
    assert_eq!(
        flat.get(&"trace.trace_id".to_owned()),
        Some(&Value::Text("1".to_owned()))
    );
    assert_eq!(
        flat.get(&"trace.span_id".to_owned()),
        Some(&Value::Text("1".to_owned()))
    );
    assert_eq!(
        flat.get(&"name".to_owned()),
        Some(&Value::Text("work".to_owned()))
    );
    assert_eq!(flat.get(&"duration_ms".to_owned()), Some(&Value::Int(5)));
}

#[test]
fn spans_and_events_of_one_trace_share_the_decision() {
    let rate = 5u32;
    let mut uniform = 0usize;
    for raw in 0..200u128 {
        let trace_id = TraceId(raw.wrapping_mul(0x9e3779b97f4a7c15));
        let builder =
            Builder::new_with_reporter(CapturingReporter::new(), "svc").with_trace_sampling(rate);
        let mut telemetry = builder.build();
        let keep = telemetry.should_report(&trace_id);
        telemetry.report_span(span_named("parent", trace_id, SpanId { tracing_id: 1 }));
        telemetry.report_span(span_named("child", trace_id, SpanId { tracing_id: 2 }));
        telemetry.report_event(event_in(trace_id, SpanId { tracing_id: 2 }));
        let received = telemetry.reporter().records().len();
        assert_eq!(received, if keep { 3 } else { 0 });
        if keep {
            uniform += 1;
        }
    }
    // some traces are kept and some dropped at a rate above one
    assert!(uniform > 0 && uniform < 200);
}

struct BackpressuredReporter {
    attempts: usize,
}

impl Reporter for BackpressuredReporter {
    fn report_data(&mut self, _data: FlatRecord, _timestamp: Timestamp) {
        // the sink's buffer is always full: the record is dropped on the
        // floor, as a transport under backpressure drops it
        self.attempts += 1;
    }
}

#[test]
fn backpressure_never_escapes_to_the_caller() {
    let builder = Builder::new_with_reporter(BackpressuredReporter { attempts: 0 }, "svc");
    let mut telemetry = builder.build();
    telemetry.report_span(span_named("first", TraceId(9), SpanId { tracing_id: 1 }));
    telemetry.report_span(span_named("second", TraceId(9), SpanId { tracing_id: 2 }));
    telemetry.report_event(event_in(TraceId(9), SpanId { tracing_id: 2 }));
    // no panic escaped and the capability stayed usable for the next call
    assert_eq!(telemetry.reporter().attempts, 3);
}

#[test]
fn stdout_builder_keeps_its_service_name() {
    let builder = Builder::new_stdout("stdout-service");
    assert_eq!(builder.service_name(), "stdout-service");
    let mut telemetry = builder.build();
    assert!(telemetry.should_report(&TraceId(123)));
    // writes one line to standard output, best-effort
    telemetry.report_span(span_named("printed", TraceId(123), SpanId { tracing_id: 4 }));
}

#[test]
fn trace_sampling_choice_sticks() {
    let builder = Builder::new_stdout("svc").with_trace_sampling(2);
    let mut telemetry = builder.build();
    let kept: Vec<bool> = (0..100u128)
        .map(|raw| telemetry.should_report(&TraceId(raw)))
        .collect();
    let again: Vec<bool> = (0..100u128)
        .map(|raw| telemetry.should_report(&TraceId(raw)))
        .collect();
    assert_eq!(kept, again);
    let mut stdout_reporter = StdoutReporter::new();
    stdout_reporter.report_data(FlatRecord::new(), Timestamp { millis: 0 });
}
