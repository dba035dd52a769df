use tracing_honeycomb::{
    event_to_values, render_record, span_to_values, Event, FlatRecord, HoneycombVisitor, Span,
    SpanId, Timestamp, TraceId, Value,
};

fn span_with_attrs(attrs: Vec<(&str, Value)>) -> Span {
    let mut values = HoneycombVisitor::new();
    for (k, v) in attrs {
        values.record(k.to_owned(), v);
    }
    Span {
        id: SpanId { tracing_id: 7 },
        trace_id: TraceId(42),
        parent_id: Some(SpanId { tracing_id: 3 }),
        name: "work".to_owned(),
        initialized_at: Timestamp { millis: 1_000 },
        completed_at: Timestamp { millis: 1_005 },
        values,
    }
}

#[test]
fn flattening_merges_attributes_and_reserved_fields() {
    let span = span_with_attrs(vec![("a", Value::Int(1)), ("b", Value::Text("x".to_owned()))]);
    let (flat, ts) = span_to_values(span);
    assert_eq!(ts, Timestamp { millis: 1_000 });
    assert_eq!(flat.get(&"a".to_owned()), Some(&Value::Int(1)));
    assert_eq!(flat.get(&"b".to_owned()), Some(&Value::Text("x".to_owned())));
    assert_eq!(
        flat.get(&"trace.trace_id".to_owned()),
        Some(&Value::Text("42".to_owned()))
    );
    assert_eq!(
        flat.get(&"trace.span_id".to_owned()),
        Some(&Value::Text("7".to_owned()))
    );
    assert_eq!(
        flat.get(&"trace.parent_id".to_owned()),
        Some(&Value::Text("3".to_owned()))
    );
    assert_eq!(
        flat.get(&"meta.type".to_owned()),
        Some(&Value::Text("span".to_owned()))
    );
    assert_eq!(
        flat.get(&"name".to_owned()),
        Some(&Value::Text("work".to_owned()))
    );
    assert_eq!(flat.get(&"duration_ms".to_owned()), Some(&Value::Int(5)));
    // two user attributes plus six reserved fields
    assert_eq!(flat.len(), 8);
}

#[test]
fn reserved_fields_shadow_colliding_user_attributes() {
    let span = span_with_attrs(vec![
        ("name", Value::Text("shadowed".to_owned())),
        ("duration_ms", Value::Int(99)),
    ]);
    let (flat, _) = span_to_values(span);
    assert_eq!(
        flat.get(&"name".to_owned()),
        Some(&Value::Text("work".to_owned()))
    );
    assert_eq!(flat.get(&"duration_ms".to_owned()), Some(&Value::Int(5)));
    assert_eq!(flat.len(), 6);
}

#[test]
fn negative_durations_clamp_to_zero() {
    let mut span = span_with_attrs(vec![]);
    span.initialized_at = Timestamp { millis: 2_000 };
    span.completed_at = Timestamp { millis: 1_000 };
    let (flat, _) = span_to_values(span);
    assert_eq!(flat.get(&"duration_ms".to_owned()), Some(&Value::Int(0)));
}

#[test]
fn events_flatten_with_their_own_kind() {
    let mut values = HoneycombVisitor::new();
    values.record("message".to_owned(), Value::Text("hello".to_owned()));
    let event = Event {
        trace_id: TraceId(42),
        span_id: SpanId { tracing_id: 7 },
        name: "log".to_owned(),
        timestamp: Timestamp { millis: 77 },
        values,
    };
    let (flat, ts) = event_to_values(event);
    assert_eq!(ts, Timestamp { millis: 77 });
    assert_eq!(
        flat.get(&"meta.type".to_owned()),
        Some(&Value::Text("event".to_owned()))
    );
    assert_eq!(
        flat.get(&"name".to_owned()),
        Some(&Value::Text("log".to_owned()))
    );
    assert_eq!(
        flat.get(&"message".to_owned()),
        Some(&Value::Text("hello".to_owned()))
    );
    assert_eq!(
        flat.get(&"trace.trace_id".to_owned()),
        Some(&Value::Text("42".to_owned()))
    );
    assert_eq!(flat.get(&"duration_ms".to_owned()), None);
}

#[test]
fn recording_a_name_again_replaces_its_value() {
    let mut rec = FlatRecord::new();
    rec.insert("k".to_owned(), Value::Int(1));
    rec.insert("k".to_owned(), Value::Int(2));
    assert_eq!(rec.get(&"k".to_owned()), Some(&Value::Int(2)));
    assert_eq!(rec.len(), 1);
    assert_eq!(rec.get(&"missing".to_owned()), None);
}

#[test]
fn rendering_produces_one_readable_line() {
    let mut rec = FlatRecord::new();
    rec.insert("num".to_owned(), Value::Int(-12));
    rec.insert("flag".to_owned(), Value::Bool(true));
    rec.insert("none".to_owned(), Value::Null);
    rec.insert("text".to_owned(), Value::Text("a\"b\\c".to_owned()));
    let line = render_record(&rec);
    assert_eq!(
        line,
        "{\"num\":-12,\"flag\":true,\"none\":null,\"text\":\"a\\\"b\\\\c\"}"
    );
}

#[test]
fn rendering_floats_shows_their_bits() {
    let bits = 1.5f64.to_bits();
    let mut rec = FlatRecord::new();
    rec.insert("f".to_owned(), Value::Float(bits));
    let line = render_record(&rec);
    assert_eq!(line, format!("{{\"f\":f64_bits:{}}}", bits));
}

#[test]
fn empty_records_render_as_empty_braces() {
    let rec = FlatRecord::new();
    assert_eq!(render_record(&rec), "{}");
    assert_eq!(rec.len(), 0);
}

#[test]
fn extreme_integers_render_exactly() {
    let mut rec = FlatRecord::new();
    rec.insert("min".to_owned(), Value::Int(i64::MIN));
    rec.insert("max".to_owned(), Value::Int(i64::MAX));
    rec.insert("zero".to_owned(), Value::Int(0));
    let line = render_record(&rec);
    assert_eq!(
        line,
        "{\"min\":-9223372036854775808,\"max\":9223372036854775807,\"zero\":0}"
    );
}

#[test]
fn zero_identifiers_render_as_zero() {
    let span = Span {
        id: SpanId { tracing_id: 0 },
        trace_id: TraceId(0),
        parent_id: None,
        name: "origin".to_owned(),
        initialized_at: Timestamp { millis: 0 },
        completed_at: Timestamp { millis: 0 },
        values: HoneycombVisitor::new(),
    };
    let (flat, _) = span_to_values(span);
    assert_eq!(
        flat.get(&"trace.trace_id".to_owned()),
        Some(&Value::Text("0".to_owned()))
    );
    assert_eq!(
        flat.get(&"trace.span_id".to_owned()),
        Some(&Value::Text("0".to_owned()))
    );
}

#[test]
fn large_identifiers_render_in_full() {
    let span = Span {
        id: SpanId {
            tracing_id: u64::MAX,
        },
        trace_id: TraceId(u128::MAX),
        parent_id: None,
        name: "edge".to_owned(),
        initialized_at: Timestamp { millis: 0 },
        completed_at: Timestamp { millis: 0 },
        values: HoneycombVisitor::new(),
    };
    let (flat, _) = span_to_values(span);
    assert_eq!(
        flat.get(&"trace.trace_id".to_owned()),
        Some(&Value::Text(u128::MAX.to_string()))
    );
    assert_eq!(
        flat.get(&"trace.span_id".to_owned()),
        Some(&Value::Text(u64::MAX.to_string()))
    );
    assert_eq!(flat.get(&"trace.parent_id".to_owned()), Some(&Value::Null));
}
