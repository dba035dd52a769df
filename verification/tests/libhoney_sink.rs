use tracing_honeycomb::{
    Builder, HoneycombVisitor, LibhoneyReporter, Span, SpanId, Timestamp, TraceId, Value,
};

fn unconfigured_reporter() -> LibhoneyReporter {
    // an empty api key makes every submission fail: the transport refuses
    // the event before it reaches the wire
    let config = libhoney::Config {
        options: libhoney::client::Options::default(),
        transmission_options: libhoney::transmission::Options::default(),
    };
    LibhoneyReporter::new(config)
}

#[test]
fn failing_transport_submission_stays_contained() {
    let builder = Builder::new_with_reporter(unconfigured_reporter(), "svc");
    let mut telemetry = builder.build();
    let mut values = HoneycombVisitor::new();
    values.record("a".to_owned(), Value::Int(1));
    values.record("pi_bits".to_owned(), Value::Float(3.25f64.to_bits()));
    let span = Span {
        id: SpanId { tracing_id: 5 },
        trace_id: TraceId(77),
        parent_id: None,
        name: "doomed".to_owned(),
        initialized_at: Timestamp { millis: 1 },
        completed_at: Timestamp { millis: 2 },
        values,
    };
    // the submission fails inside the transport; the failure is logged and
    // the record dropped without disturbing the caller
    telemetry.report_span(span);
    let second = Span {
        id: SpanId { tracing_id: 6 },
        trace_id: TraceId(77),
        parent_id: Some(SpanId { tracing_id: 5 }),
        name: "still-works".to_owned(),
        initialized_at: Timestamp { millis: 3 },
        completed_at: Timestamp { millis: 4 },
        values: HoneycombVisitor::new(),
    };
    telemetry.report_span(second);
}

#[test]
fn response_drain_handle_is_available() {
    let reporter = unconfigured_reporter();
    let _drain = reporter.response_drain();
}
