//! Reporter sinks: where a flattened record goes once a trace is kept.
//!
//! A reporter accepts one record plus its timestamp, best-effort and
//! fire-and-forget: reporting must never propagate a failure into the
//! instrumented application.

use crate::trace_id::{dec_seq, string_push_char, u128_to_decimal};
use crate::value::{lemma_entry_views_unique, FlatRecord, Value, ValueView};
use crate::visitor::Timestamp;
use libhoney::Event as HoneyEvent;
use libhoney::FieldHolder;
use serde_json::Value as JsonValue;
use std::collections::HashMap;
use std::io::Write;
use vstd::prelude::*;
use vstd::string::StringExecFns;

verus! {

/// Reports data to some backend.
pub trait Reporter: Sized {
    /// The records handed to this sink so far, in order, as mathematical
    /// values.  What the sink then makes of a record — a printed line, an
    /// asynchronous submission that may yet fail — is the sink's own affair.
    /// The sinks of this library each maintain their own model; an
    /// unverified sink elsewhere inherits this default, of which nothing is
    /// proved.
    open spec fn handed(self) -> Seq<(Map<Seq<char>, ValueView>, Timestamp)> {
        Seq::empty()
    }

    /// Accepts one flattened record and its timestamp, best-effort: the call
    /// returns no success value and must never propagate a failure.  The
    /// sink is handed exactly this record, once.
    fn report_data(&mut self, data: FlatRecord, timestamp: Timestamp)
        requires
            data.wf(),
        ensures
            final(self).handed() == old(self).handed().push((data@, timestamp)),
    ;
}

/// A character as it appears inside a rendered text value: quotes and
/// backslashes gain a backslash, everything else stands as itself.
pub open spec fn esc_char(c: char) -> Seq<char> {
    if c == '"' || c == '\\' {
        seq!['\\', c]
    } else {
        seq![c]
    }
}

/// A text value's characters with quotes and backslashes escaped.
pub open spec fn escaped(s: Seq<char>) -> Seq<char>
    decreases s.len(),
{
    if s.len() == 0 {
        Seq::empty()
    } else {
        escaped(s.drop_last()) + esc_char(s.last())
    }
}

/// The decimal rendering of a signed integer.
pub open spec fn int_dec(i: int) -> Seq<char> {
    if i < 0 {
        seq!['-'] + dec_seq((-i) as nat)
    } else {
        dec_seq(i as nat)
    }
}

/// The rendered form of one scalar value.  A floating-point value is carried
/// as raw bits, so it is rendered as those bits behind a marker.
pub open spec fn value_rendered(v: ValueView) -> Seq<char> {
    match v {
        ValueView::Null => "null"@,
        ValueView::Bool(b) => if b {
            "true"@
        } else {
            "false"@
        },
        ValueView::Int(i) => int_dec(i),
        ValueView::Float(bits) => "f64_bits:"@ + dec_seq(bits as nat),
        ValueView::Text(s) => seq!['"'] + escaped(s) + seq!['"'],
    }
}

/// The rendered form of one `key:value` entry.
pub open spec fn entry_rendered(p: (Seq<char>, ValueView)) -> Seq<char> {
    seq!['"'] + escaped(p.0) + seq!['"', ':'] + value_rendered(p.1)
}

/// The rendered forms of a record's entries, comma-separated.
pub open spec fn entries_rendered(s: Seq<(Seq<char>, ValueView)>) -> Seq<char>
    decreases s.len(),
{
    if s.len() == 0 {
        Seq::empty()
    } else if s.len() == 1 {
        entry_rendered(s[0])
    } else {
        entries_rendered(s.drop_last()) + seq![','] + entry_rendered(s.last())
    }
}

/// The human-readable line a record is rendered to.
pub open spec fn record_rendered(s: Seq<(Seq<char>, ValueView)>) -> Seq<char> {
    seq!['{'] + entries_rendered(s) + seq!['}']
}

/// Appends a text's characters with quotes and backslashes escaped.
fn append_escaped(out: &mut String, s: &str)
    ensures
        final(out)@ == old(out)@ + escaped(s@),
{
    let ghost init = out@;
    let n = s.unicode_len();
    let mut i: usize = 0;
    while i < n
        invariant
            n == s@.len(),
            i <= n,
            out@ == init + escaped(s@.subrange(0, i as int)),
        decreases n - i,
    {
        let c = s.get_char(i);
        if c == '"' || c == '\\' {
            string_push_char(out, '\\');
        }
        string_push_char(out, c);
        proof {
            assert(s@.subrange(0, i + 1 as int).drop_last() =~= s@.subrange(0, i as int));
            assert(escaped(s@.subrange(0, i + 1 as int)) =~= escaped(s@.subrange(0, i as int))
                + esc_char(s@[i as int]));
            assert(out@ =~= init + escaped(s@.subrange(0, i + 1 as int)));
        }
        i += 1;
    }
    proof {
        assert(s@.subrange(0, s@.len() as int) =~= s@);
    }
}

/// Appends the decimal rendering of a signed integer.
fn append_int(out: &mut String, i: i64)
    ensures
        final(out)@ == old(out)@ + int_dec(i as int),
{
    let ghost init = out@;
    if i < 0 {
        string_push_char(out, '-');
        let magnitude: u128 = (-(i as i128)) as u128;
        let digits = u128_to_decimal(magnitude);
        out.append(digits.as_str());
        proof {
            assert(out@ =~= init + (seq!['-'] + dec_seq(magnitude as nat)));
        }
    } else {
        let digits = u128_to_decimal(i as u128);
        out.append(digits.as_str());
    }
}

/// Appends the rendered form of one scalar value.
fn append_value(out: &mut String, v: &Value)
    ensures
        final(out)@ == old(out)@ + value_rendered(v@),
{
    let ghost init = out@;
    match v {
        Value::Null => {
            out.append("null");
        },
        Value::Bool(b) => {
            if *b {
                out.append("true");
            } else {
                out.append("false");
            }
        },
        Value::Int(i) => {
            append_int(out, *i);
        },
        Value::Float(bits) => {
            out.append("f64_bits:");
            let digits = u128_to_decimal(*bits as u128);
            out.append(digits.as_str());
            proof {
                assert(out@ =~= init + ("f64_bits:"@ + dec_seq(*bits as nat)));
            }
        },
        Value::Text(s) => {
            string_push_char(out, '"');
            append_escaped(out, s.as_str());
            string_push_char(out, '"');
            proof {
                assert(out@ =~= init + (seq!['"'] + escaped(s@) + seq!['"']));
            }
        },
    }
}

/// Renders a record as one human-readable line.
pub fn render_record(rec: &FlatRecord) -> (r: String)
    ensures
        r@ == record_rendered(rec.entry_views()),
{
    let ghost views = rec.entry_views();
    let entries = rec.entries();
    let mut out = String::new();
    string_push_char(&mut out, '{');
    let mut i: usize = 0;
    while i < entries.len()
        invariant
            views == rec.entry_views(),
            views == entries@.map_values(|p: (String, Value)| (p.0@, p.1@)),
            i <= entries@.len(),
            out@ == seq!['{'] + entries_rendered(views.subrange(0, i as int)),
        decreases entries@.len() - i,
    {
        let ghost pre = out@;
        if i > 0 {
            string_push_char(&mut out, ',');
        }
        string_push_char(&mut out, '"');
        append_escaped(&mut out, entries[i].0.as_str());
        string_push_char(&mut out, '"');
        string_push_char(&mut out, ':');
        append_value(&mut out, &entries[i].1);
        proof {
            let sub1 = views.subrange(0, i + 1 as int);
            assert(sub1.drop_last() =~= views.subrange(0, i as int));
            assert(views[i as int] == (entries@[i as int].0@, entries@[i as int].1@));
            assert(entry_rendered(views[i as int]) =~= seq!['"'] + escaped(entries@[i as int].0@)
                + seq!['"', ':'] + value_rendered(entries@[i as int].1@));
            if i > 0 {
                assert(entries_rendered(sub1) =~= entries_rendered(views.subrange(0, i as int))
                    + seq![','] + entry_rendered(views[i as int]));
                assert(out@ =~= pre + seq![','] + entry_rendered(views[i as int]));
            } else {
                assert(entries_rendered(sub1) =~= entry_rendered(views[0]));
                assert(out@ =~= pre + entry_rendered(views[0]));
            }
            assert(out@ =~= seq!['{'] + entries_rendered(sub1));
        }
        i += 1;
    }
    string_push_char(&mut out, '}');
    proof {
        assert(views.subrange(0, views.len() as int) =~= views);
        assert(out@ =~= seq!['{'] + entries_rendered(views) + seq!['}']);
    }
    out
}

/// Reporter that writes each record as one line on standard output.  A write
/// failure is swallowed: best-effort diagnostics never crash the host.
#[derive(Clone, Copy)]
pub struct StdoutReporter {
    handed_records: Ghost<Seq<(Map<Seq<char>, ValueView>, Timestamp)>>,
}

impl StdoutReporter {
    /// Creates a reporter that has been handed nothing yet.
    pub fn new() -> (r: StdoutReporter)
        ensures
            r.handed() == Seq::<(Map<Seq<char>, ValueView>, Timestamp)>::empty(),
    {
        StdoutReporter { handed_records: Ghost(Seq::empty()) }
    }
}

impl Reporter for StdoutReporter {
    closed spec fn handed(self) -> Seq<(Map<Seq<char>, ValueView>, Timestamp)> {
        self.handed_records@
    }

    fn report_data(&mut self, data: FlatRecord, timestamp: Timestamp) {
        let line = render_record(&data);
        print_line(&line);
        self.handed_records = Ghost(self.handed_records@.push((data@, timestamp)));
    }
}

/// Relies on `writeln!` to standard output: writes the line and a newline;
/// a write failure is ignored.
#[verifier::external_body]
fn print_line(line: &String) {
    let _ = writeln!(std::io::stdout(), "{}", line);
}

/// Reporter that keeps every record it is handed, for inspection.
#[derive(Clone, PartialEq, Debug)]
pub struct CapturingReporter {
    records: Vec<(FlatRecord, Timestamp)>,
}

impl CapturingReporter {
    /// Creates a reporter that has received nothing yet.
    pub fn new() -> (r: CapturingReporter)
        ensures
            r.received() == Seq::<(FlatRecord, Timestamp)>::empty(),
    {
        CapturingReporter { records: Vec::new() }
    }

    /// The records received so far.
    pub closed spec fn received(self) -> Seq<(FlatRecord, Timestamp)> {
        self.records@
    }

    /// The records received so far, in order of arrival.  They are exactly
    /// the records the sink was handed.
    pub fn records(&self) -> (r: &Vec<(FlatRecord, Timestamp)>)
        ensures
            r@ == self.received(),
            r@.map_values(|p: (FlatRecord, Timestamp)| (p.0@, p.1)) == self.handed(),
    {
        &self.records
    }
}

impl Reporter for CapturingReporter {
    closed spec fn handed(self) -> Seq<(Map<Seq<char>, ValueView>, Timestamp)> {
        self.records@.map_values(|p: (FlatRecord, Timestamp)| (p.0@, p.1))
    }

    fn report_data(&mut self, data: FlatRecord, timestamp: Timestamp)
        ensures
            final(self).received() == old(self).received().push((data, timestamp)),
    {
        let ghost pre = self.records@;
        self.records.push((data, timestamp));
        proof {
            assert(self.records@.map_values(|p: (FlatRecord, Timestamp)| (p.0@, p.1)) =~= pre
                .map_values(|p: (FlatRecord, Timestamp)| (p.0@, p.1)).push((data@, timestamp)));
        }
    }
}

#[verifier::external_type_specification]
#[verifier::external_body]
pub struct ExLibhoneyEvent(HoneyEvent);

#[verifier::external_type_specification]
#[verifier::external_body]
pub struct ExLibhoneyConfig(libhoney::Config);

#[verifier::external_type_specification]
#[verifier::external_body]
pub struct ExJsonValue(JsonValue);

/// A floating-point value coerced to its nearest backend-representable
/// form: the pipeline holds only its raw bits, so it travels as text.
pub open spec fn json_coerced(v: ValueView) -> ValueView {
    match v {
        ValueView::Float(bits) => ValueView::Text("f64_bits:"@ + dec_seq(bits as nat)),
        _ => v,
    }
}

/// Coerces a value for submission: floating-point bits become their textual
/// rendering, everything else is kept as it is.
fn json_ready(v: &Value) -> (r: Value)
    ensures
        r@ == json_coerced(v@),
        !(r@ is Float),
{
    match v {
        Value::Null => Value::Null,
        Value::Bool(b) => Value::Bool(*b),
        Value::Int(i) => Value::Int(*i),
        Value::Float(bits) => {
            let mut s = "f64_bits:".to_owned();
            let digits = u128_to_decimal(*bits as u128);
            s.append(digits.as_str());
            Value::Text(s)
        },
        Value::Text(s) => Value::Text(s.clone()),
    }
}

/// The pair list handed to the transport: exactly the record's entries, in
/// storage order, each value coerced for submission.
fn to_pairs(data: &FlatRecord) -> (pairs: Vec<(String, Value)>)
    requires
        data.wf(),
    ensures
        pairs@.len() == data.entry_views().len(),
        forall|i: int|
            0 <= i < pairs@.len() ==> (pairs@[i].0@, pairs@[i].1@) == ((
                data.entry_views()[i].0,
                json_coerced(data.entry_views()[i].1),
            )),
        forall|i: int| 0 <= i < pairs@.len() ==> !(pairs@[i].1@ is Float),
        forall|i: int, j: int| 0 <= i < j < pairs@.len() ==> pairs@[i].0@ != pairs@[j].0@,
{
    proof {
        lemma_entry_views_unique(*data);
    }
    let ghost views = data.entry_views();
    let entries = data.entries();
    let mut pairs: Vec<(String, Value)> = Vec::new();
    let mut i: usize = 0;
    while i < entries.len()
        invariant
            views == data.entry_views(),
            views == entries@.map_values(|p: (String, Value)| (p.0@, p.1@)),
            i <= entries@.len(),
            pairs@.len() == i,
            forall|k: int|
                0 <= k < i ==> (pairs@[k].0@, pairs@[k].1@) == ((
                    views[k].0,
                    json_coerced(views[k].1),
                )),
            forall|k: int| 0 <= k < i ==> !(pairs@[k].1@ is Float),
        decreases entries@.len() - i,
    {
        let converted = json_ready(&entries[i].1);
        pairs.push((entries[i].0.clone(), converted));
        i += 1;
    }
    proof {
        assert forall|a: int, b: int| 0 <= a < b < pairs@.len() implies pairs@[a].0@
            != pairs@[b].0@ by {
            assert(pairs@[a].0@ == data.entry_views()[a].0);
            assert(pairs@[b].0@ == data.entry_views()[b].0);
            assert(data.entry_views()[a].0 != data.entry_views()[b].0);
        }
    }
    pairs
}

/// Relies on serde_json's `Value` constructors (`Number::from` on `i64` is
/// infallible) and std's `HashMap::from_iter`: carries each pair over,
/// variant for variant, into the map shape the transport's field holder
/// accepts.  The caller's keys are unique, so no entry is lost to the
/// map's deduplication.
#[verifier::external_body]
fn pairs_to_json_map(pairs: Vec<(String, Value)>) -> HashMap<String, JsonValue>
    requires
        forall|i: int| 0 <= i < pairs@.len() ==> !(pairs@[i].1@ is Float),
        forall|i: int, j: int| 0 <= i < j < pairs@.len() ==> pairs@[i].0@ != pairs@[j].0@,
{
    pairs
        .into_iter()
        .map(|(k, v)| {
            let converted = match v {
                Value::Null | Value::Float(_) => JsonValue::Null,
                Value::Bool(b) => JsonValue::Bool(b),
                Value::Int(i) => JsonValue::Number(serde_json::Number::from(i)),
                Value::Text(s) => JsonValue::String(s),
            };
            (k, converted)
        })
        .collect()
}

/// Holder for the libhoney client.  The client is opaque: nothing is
/// proved about it, and every call into it goes through a trusted wrapper.
#[verifier::external_body]
pub struct LibhoneyClient {
    client: libhoney::Client<libhoney::transmission::Transmission>,
}

/// Relies on `libhoney::init`: spins the transmission up and returns a
/// client ready to send events.
#[verifier::external_body]
fn init_client(config: libhoney::Config) -> LibhoneyClient {
    LibhoneyClient { client: libhoney::init(config) }
}

/// Relies on `libhoney::Client::new_event`: creates an event prepopulated
/// with any fields in the client's scope.
#[verifier::external_body]
fn new_event(client: &LibhoneyClient) -> HoneyEvent {
    client.client.new_event()
}

/// Relies on `libhoney::FieldHolder::add`: attaches every pair of the map
/// to the event as a field.
#[verifier::external_body]
fn add_fields(ev: &mut HoneyEvent, fields: HashMap<String, JsonValue>) {
    ev.add(fields);
}

/// Relies on `HoneyEvent::set_timestamp`, with the instant converted
/// through `chrono::DateTime::from_timestamp_millis`; an instant outside
/// chrono's representable range leaves the event's default timestamp.
#[verifier::external_body]
fn set_event_timestamp(ev: &mut HoneyEvent, timestamp: Timestamp) {
    if let Some(t) = chrono::DateTime::from_timestamp_millis(timestamp.millis) {
        ev.set_timestamp(t);
    }
}

/// Relies on `HoneyEvent::send`: dispatches the event for asynchronous
/// transmission.  In this libhoney version `send` errs only on an event
/// with no fields or a missing api_host, api_key or dataset; a full
/// outbound queue is reported on the response channel instead, and the
/// overflowing event is dropped there.  An error here is written to
/// standard error and the record dropped — never retried or blocked on.
#[verifier::external_body]
fn send_event(ev: &mut HoneyEvent, client: &mut LibhoneyClient) {
    if let Err(err) = ev.send(&mut client.client) {
        let _ = writeln!(std::io::stderr(), "error sending event to honeycomb, {:?}", err);
    }
}

/// Relies on `libhoney::Client::responses`: hands out a fresh handle on
/// the client's acknowledgment channel, wrapped for discarding.
#[verifier::external_body]
fn client_response_drain(client: &LibhoneyClient) -> ResponseDrain {
    let rx = client.client.responses();
    ResponseDrain { recv_err: Box::new(move || rx.recv().is_err()) }
}

/// Reporter that forwards each record to a libhoney client for asynchronous
/// transmission to the ingestion endpoint.
pub struct LibhoneyReporter {
    client: LibhoneyClient,
    handed_records: Ghost<Seq<(Map<Seq<char>, ValueView>, Timestamp)>>,
}

impl LibhoneyReporter {
    /// Creates a reporter over a freshly initialised libhoney client.  The
    /// caller must keep the client's bounded response channel drained for
    /// the client's lifetime (see [`LibhoneyReporter::response_drain`]);
    /// submission deadlocks once that channel fills.
    pub fn new(config: libhoney::Config) -> (r: LibhoneyReporter)
        ensures
            r.handed() == Seq::<(Map<Seq<char>, ValueView>, Timestamp)>::empty(),
    {
        LibhoneyReporter { client: init_client(config), handed_records: Ghost(Seq::empty()) }
    }

    /// Hands out a fresh drain handle on the client's acknowledgment
    /// channel.
    pub fn response_drain(&self) -> ResponseDrain {
        client_response_drain(&self.client)
    }
}

/// Opaque handle on the transport's bounded acknowledgment channel.  A
/// long-lived task must call [`ResponseDrain::recv_discard`] until it
/// reports disconnection, or the channel fills and submission deadlocks;
/// draining it is a liveness requirement, not a feature.
#[verifier::external_body]
pub struct ResponseDrain {
    recv_err: Box<dyn FnMut() -> bool + Send>,
}

impl ResponseDrain {
    /// Relies on crossbeam's `Receiver::recv` through the stored handle:
    /// blocks until one acknowledgment arrives and discards it; returns
    /// true once the channel is empty and disconnected.
    #[verifier::external_body]
    pub fn recv_discard(&mut self) -> (disconnected: bool) {
        (self.recv_err)()
    }
}

impl Reporter for LibhoneyReporter {
    closed spec fn handed(self) -> Seq<(Map<Seq<char>, ValueView>, Timestamp)> {
        self.handed_records@
    }

    fn report_data(&mut self, data: FlatRecord, timestamp: Timestamp) {
        let pairs = to_pairs(&data);
        let fields = pairs_to_json_map(pairs);
        let mut ev = new_event(&self.client);
        add_fields(&mut ev, fields);
        set_event_timestamp(&mut ev, timestamp);
        send_event(&mut ev, &mut self.client);
        self.handed_records = Ghost(self.handed_records@.push((data@, timestamp)));
    }
}

} // verus!
