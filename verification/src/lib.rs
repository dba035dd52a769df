//! Reporting tail of a distributed-tracing pipeline.
//!
//! Finished spans and point-in-time events, each carrying a trace identifier,
//! are run through a deterministic trace-level sampling decision; records that
//! are kept are flattened into a key/value payload and handed to a pluggable
//! reporter sink.

mod deterministic_sampler;
mod honeycomb;
mod reporter;
mod trace_id;
mod value;
mod visitor;

pub use deterministic_sampler::{
    lemma_absent_rate_keeps_all, lemma_rate_one_keeps_all, lemma_should_report_deterministic,
    sample, should_report, should_report_spec, valid_sample_rate,
};
pub use honeycomb::{lemma_same_trace_same_decision, HoneycombTelemetry};
pub use reporter::{
    render_record, CapturingReporter, LibhoneyReporter, Reporter, StdoutReporter,
};
pub use trace_id::{SpanId, TraceId};
pub use value::{FlatRecord, Value, ValueView};
pub use visitor::{
    event_to_values, lemma_event_reserved_fields_win, lemma_span_reserved_fields_win,
    span_to_values, Event, HoneycombVisitor, Span, Timestamp,
};

use crate::deterministic_sampler::valid_sample_rate as rate_ok;
use vstd::prelude::*;

verus! {

/// Builds a telemetry capability with custom configuration values: a
/// reporter choice, an optional trace-level sample rate, and a service name
/// used only for labeling.
#[derive(Debug)]
pub struct Builder<R> {
    reporter: R,
    sample_rate: Option<u32>,
    service_name: String,
}

impl Builder<StdoutReporter> {
    /// Returns a new `Builder` that reports data to standard output.
    pub fn new_stdout(service_name: &str) -> (r: Self)
        ensures
            r.wf(),
            r.sample_rate_spec() == Option::<u32>::None,
            r.reporter_spec().handed() == Seq::<
                (Map<Seq<char>, ValueView>, Timestamp),
            >::empty(),
            r.service_name_spec() == service_name@,
    {
        Builder {
            reporter: StdoutReporter::new(),
            sample_rate: Option::None,
            service_name: service_name.to_owned(),
        }
    }
}

impl<R: Reporter> Builder<R> {
    /// The chosen sample rate, if any.
    pub closed spec fn sample_rate_spec(self) -> Option<u32> {
        self.sample_rate
    }

    /// The chosen reporter.
    pub closed spec fn reporter_spec(self) -> R {
        self.reporter
    }

    /// The service name, used only for labeling.
    pub closed spec fn service_name_spec(self) -> Seq<char> {
        self.service_name@
    }

    /// The sample rate, if present, is at least one.
    pub open spec fn wf(self) -> bool {
        rate_ok(self.sample_rate_spec())
    }

    /// Returns a new `Builder` over an already constructed reporter.
    pub fn new_with_reporter(reporter: R, service_name: &str) -> (r: Self)
        ensures
            r.wf(),
            r.sample_rate_spec() == Option::<u32>::None,
            r.reporter_spec() == reporter,
            r.service_name_spec() == service_name@,
    {
        Builder { reporter, sample_rate: Option::None, service_name: service_name.to_owned() }
    }

    /// Enables trace-level sampling: whole traces are kept or dropped by a
    /// deterministic function of their identifier, so the events of one
    /// trace are never sampled differently.  A rate of zero is a
    /// configuration error and is not accepted.
    pub fn with_trace_sampling(self, sample_rate: u32) -> (r: Self)
        requires
            sample_rate >= 1,
        ensures
            r.wf(),
            r.sample_rate_spec() == Option::Some(sample_rate),
            r.reporter_spec() == self.reporter_spec(),
            r.service_name_spec() == self.service_name_spec(),
    {
        Builder {
            reporter: self.reporter,
            sample_rate: Option::Some(sample_rate),
            service_name: self.service_name,
        }
    }

    /// Constructs the configured telemetry capability.
    pub fn build(self) -> (r: HoneycombTelemetry<R>)
        requires
            self.wf(),
        ensures
            r.wf(),
            r.sample_rate_spec() == self.sample_rate_spec(),
            r.reporter_spec() == self.reporter_spec(),
    {
        HoneycombTelemetry::new(self.reporter, self.sample_rate)
    }

    /// The service name this builder labels its telemetry with.
    pub fn service_name(&self) -> (r: &String)
        ensures
            r@ == self.service_name_spec(),
    {
        &self.service_name
    }
}

} // verus!
