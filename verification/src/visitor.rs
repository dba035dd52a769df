//! Flattening of spans and events into the key/value payload a reporter
//! accepts.
//!
//! The output always carries the trace identifier, span identifier, optional
//! parent identifier, a record-kind discriminator, the record's name and, for
//! spans, a duration, merged with the user-supplied attributes.  On a name
//! collision the reserved field wins, so the backend's schema fields are
//! never shadowed by user data.

use crate::trace_id::{dec_seq, u128_to_decimal, u64_to_decimal, SpanId, TraceId};
use crate::value::{FlatRecord, Value, ValueView};
use vstd::prelude::*;

verus! {

/// A wall-clock instant, in milliseconds since the Unix epoch.
#[derive(Clone, Copy, PartialEq, Eq, Structural, Hash, PartialOrd, Ord, Debug)]
pub struct Timestamp {
    /// Milliseconds since the Unix epoch.
    pub millis: i64,
}

/// Visitor that accumulates a record's typed attributes while it is alive.
#[derive(Clone, PartialEq, Debug)]
pub struct HoneycombVisitor(pub FlatRecord);

impl HoneycombVisitor {
    /// Creates a visitor with no attributes recorded yet.
    pub fn new() -> (r: HoneycombVisitor)
        ensures
            r.0.wf(),
            r.0@ == Map::<Seq<char>, ValueView>::empty(),
    {
        HoneycombVisitor(FlatRecord::new())
    }

    /// Records one attribute; recording a name again replaces its value.
    pub fn record(&mut self, name: String, value: Value)
        requires
            old(self).0.wf(),
        ensures
            final(self).0.wf(),
            final(self).0@ == old(self).0@.insert(name@, value@),
    {
        self.0.insert(name, value);
    }
}

impl Default for HoneycombVisitor {
    /// A visitor with no attributes recorded yet.
    fn default() -> (r: HoneycombVisitor)
        ensures
            r.0.wf(),
            r.0@ == Map::<Seq<char>, ValueView>::empty(),
    {
        HoneycombVisitor::new()
    }
}

/// A completed unit of work: identifiers, name, start and completion
/// instants, and the attributes accumulated during its lifetime.
#[derive(Clone, PartialEq, Debug)]
pub struct Span {
    /// Identifier of this span within its trace.
    pub id: SpanId,
    /// Identifier of the trace this span belongs to.
    pub trace_id: TraceId,
    /// Identifier of the parent span, absent at a trace's local root.
    pub parent_id: Option<SpanId>,
    /// Name of the traced scope.
    pub name: String,
    /// Instant the span was entered.
    pub initialized_at: Timestamp,
    /// Instant the span completed.
    pub completed_at: Timestamp,
    /// Attributes accumulated while the span was alive.
    pub values: HoneycombVisitor,
}

impl Span {
    /// The span's attribute collection is well formed.
    pub open spec fn wf(self) -> bool {
        self.values.0.wf()
    }
}

/// A point-in-time record: the owning trace and span, a name, one instant,
/// and attributes.
#[derive(Clone, PartialEq, Debug)]
pub struct Event {
    /// Identifier of the trace this event belongs to.
    pub trace_id: TraceId,
    /// Identifier of the span the event fired in.
    pub span_id: SpanId,
    /// Name of the event.
    pub name: String,
    /// Instant the event fired.
    pub timestamp: Timestamp,
    /// Attributes recorded by the event.
    pub values: HoneycombVisitor,
}

impl Event {
    /// The event's attribute collection is well formed.
    pub open spec fn wf(self) -> bool {
        self.values.0.wf()
    }
}

/// A span's duration in milliseconds: completion minus start, clamped to the
/// representable non-negative range rather than rejected.
pub open spec fn duration_millis(initialized_at: Timestamp, completed_at: Timestamp) -> int {
    let d = completed_at.millis - initialized_at.millis;
    if d < 0 {
        0
    } else if d > i64::MAX {
        i64::MAX as int
    } else {
        d
    }
}

/// The flattened form of an optional parent identifier.
pub open spec fn parent_id_view(parent_id: Option<SpanId>) -> ValueView {
    match parent_id {
        Option::Some(id) => ValueView::Text(dec_seq(id.tracing_id as nat)),
        Option::None => ValueView::Null,
    }
}

/// The flat mapping a span is turned into: its attributes, overridden by the
/// reserved fields.
pub open spec fn span_flat_map(s: Span) -> Map<Seq<char>, ValueView> {
    s.values.0@.insert("trace.trace_id"@, ValueView::Text(dec_seq(s.trace_id.0 as nat))).insert(
        "trace.span_id"@,
        ValueView::Text(dec_seq(s.id.tracing_id as nat)),
    ).insert("trace.parent_id"@, parent_id_view(s.parent_id)).insert(
        "meta.type"@,
        ValueView::Text("span"@),
    ).insert("name"@, ValueView::Text(s.name@)).insert(
        "duration_ms"@,
        ValueView::Int(duration_millis(s.initialized_at, s.completed_at)),
    )
}

/// The flat mapping an event is turned into: its attributes, overridden by
/// the reserved fields.
pub open spec fn event_flat_map(e: Event) -> Map<Seq<char>, ValueView> {
    e.values.0@.insert("trace.trace_id"@, ValueView::Text(dec_seq(e.trace_id.0 as nat))).insert(
        "trace.span_id"@,
        ValueView::Text(dec_seq(e.span_id.tracing_id as nat)),
    ).insert("meta.type"@, ValueView::Text("event"@)).insert("name"@, ValueView::Text(e.name@))
}

/// Computes a span's duration in milliseconds.
fn duration_ms(initialized_at: Timestamp, completed_at: Timestamp) -> (d: i64)
    ensures
        d == duration_millis(initialized_at, completed_at),
{
    let wide: i128 = (completed_at.millis as i128) - (initialized_at.millis as i128);
    if wide < 0 {
        0
    } else if wide > (i64::MAX as i128) {
        i64::MAX
    } else {
        wide as i64
    }
}

/// Flattens a span into its key/value payload and extracts its wall-clock
/// timestamp.
pub fn span_to_values(span: Span) -> (r: (FlatRecord, Timestamp))
    requires
        span.wf(),
    ensures
        r.0.wf(),
        r.0@ == span_flat_map(span),
        r.1 == span.initialized_at,
{
    let Span { id, trace_id, parent_id, name, initialized_at, completed_at, values } = span;
    let mut data = values.0;
    data.insert("trace.trace_id".to_owned(), Value::Text(u128_to_decimal(trace_id.0)));
    data.insert("trace.span_id".to_owned(), Value::Text(u64_to_decimal(id.tracing_id)));
    let parent_value = match parent_id {
        Option::Some(pid) => Value::Text(u64_to_decimal(pid.tracing_id)),
        Option::None => Value::Null,
    };
    data.insert("trace.parent_id".to_owned(), parent_value);
    data.insert("meta.type".to_owned(), Value::Text("span".to_owned()));
    data.insert("name".to_owned(), Value::Text(name));
    data.insert("duration_ms".to_owned(), Value::Int(duration_ms(initialized_at, completed_at)));
    (data, initialized_at)
}

/// Flattens an event into its key/value payload and extracts its wall-clock
/// timestamp.
pub fn event_to_values(event: Event) -> (r: (FlatRecord, Timestamp))
    requires
        event.wf(),
    ensures
        r.0.wf(),
        r.0@ == event_flat_map(event),
        r.1 == event.timestamp,
{
    let Event { trace_id, span_id, name, timestamp, values } = event;
    let mut data = values.0;
    data.insert("trace.trace_id".to_owned(), Value::Text(u128_to_decimal(trace_id.0)));
    data.insert("trace.span_id".to_owned(), Value::Text(u64_to_decimal(span_id.tracing_id)));
    data.insert("meta.type".to_owned(), Value::Text("event".to_owned()));
    data.insert("name".to_owned(), Value::Text(name));
    (data, timestamp)
}

/// Whether a key is one of the reserved field names of a flattened span.
pub open spec fn is_reserved_span_key(k: Seq<char>) -> bool {
    ||| k == "trace.trace_id"@
    ||| k == "trace.span_id"@
    ||| k == "trace.parent_id"@
    ||| k == "meta.type"@
    ||| k == "name"@
    ||| k == "duration_ms"@
}

/// Whether a key is one of the reserved field names of a flattened event.
pub open spec fn is_reserved_event_key(k: Seq<char>) -> bool {
    ||| k == "trace.trace_id"@
    ||| k == "trace.span_id"@
    ||| k == "meta.type"@
    ||| k == "name"@
}

proof fn lemma_reserved_keys_distinct()
    ensures
        "trace.trace_id"@.len() == 14,
        "trace.span_id"@.len() == 13,
        "trace.parent_id"@.len() == 15,
        "meta.type"@.len() == 9,
        "name"@.len() == 4,
        "duration_ms"@.len() == 11,
{
    reveal_strlit("trace.trace_id");
    reveal_strlit("trace.span_id");
    reveal_strlit("trace.parent_id");
    reveal_strlit("meta.type");
    reveal_strlit("name");
    reveal_strlit("duration_ms");
}

/// Flattening a span keeps every reserved field at its reserved value — a
/// colliding user attribute never shadows one — and keeps every other user
/// attribute unchanged; no other keys appear.
pub proof fn lemma_span_reserved_fields_win(s: Span)
    ensures
        span_flat_map(s)["trace.trace_id"@] == ValueView::Text(dec_seq(s.trace_id.0 as nat)),
        span_flat_map(s)["trace.span_id"@] == ValueView::Text(dec_seq(s.id.tracing_id as nat)),
        span_flat_map(s)["trace.parent_id"@] == parent_id_view(s.parent_id),
        span_flat_map(s)["meta.type"@] == ValueView::Text("span"@),
        span_flat_map(s)["name"@] == ValueView::Text(s.name@),
        span_flat_map(s)["duration_ms"@] == ValueView::Int(
            duration_millis(s.initialized_at, s.completed_at),
        ),
        forall|k: Seq<char>|
            s.values.0@.contains_key(k) && !is_reserved_span_key(k) ==> span_flat_map(
                s,
            ).contains_key(k) && span_flat_map(s)[k] == s.values.0@[k],
        forall|k: Seq<char>|
            span_flat_map(s).contains_key(k) <==> (s.values.0@.contains_key(k)
                || is_reserved_span_key(k)),
{
    lemma_reserved_keys_distinct();
}

/// Flattening an event keeps every reserved field at its reserved value and
/// every other user attribute unchanged; no other keys appear.
pub proof fn lemma_event_reserved_fields_win(e: Event)
    ensures
        event_flat_map(e)["trace.trace_id"@] == ValueView::Text(dec_seq(e.trace_id.0 as nat)),
        event_flat_map(e)["trace.span_id"@] == ValueView::Text(dec_seq(e.span_id.tracing_id as nat)),
        event_flat_map(e)["meta.type"@] == ValueView::Text("event"@),
        event_flat_map(e)["name"@] == ValueView::Text(e.name@),
        forall|k: Seq<char>|
            e.values.0@.contains_key(k) && !is_reserved_event_key(k) ==> event_flat_map(
                e,
            ).contains_key(k) && event_flat_map(e)[k] == e.values.0@[k],
        forall|k: Seq<char>|
            event_flat_map(e).contains_key(k) <==> (e.values.0@.contains_key(k)
                || is_reserved_event_key(k)),
{
    lemma_reserved_keys_distinct();
}

} // verus!
