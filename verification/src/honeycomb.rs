//! The telemetry capability: the orchestrator behind the two entry points
//! "report a span" and "report an event".
//!
//! Each entry point consults the sampler once, with the record's trace
//! identifier; on a keep decision it flattens the record and hands the
//! result to the owned reporter.  There are no retries at this layer and no
//! mutable state besides the reporter itself.

use crate::deterministic_sampler;
use crate::deterministic_sampler::{should_report_spec, valid_sample_rate};
use crate::reporter::Reporter;
use crate::trace_id::TraceId;
use crate::visitor::{
    event_flat_map, event_to_values, span_flat_map, span_to_values, Event, HoneycombVisitor, Span,
};
use vstd::prelude::*;

verus! {

/// Telemetry capability that publishes spans and events to a reporter,
/// sampling whole traces by their identifier.
#[derive(Debug)]
pub struct HoneycombTelemetry<R> {
    reporter: R,
    sample_rate: Option<u32>,
}

impl<R: Reporter> HoneycombTelemetry<R> {
    /// The sample rate fixed at construction.
    pub closed spec fn sample_rate_spec(self) -> Option<u32> {
        self.sample_rate
    }

    /// The owned reporter.
    pub closed spec fn reporter_spec(self) -> R {
        self.reporter
    }

    /// The sample rate, if present, is at least one.
    pub open spec fn wf(self) -> bool {
        valid_sample_rate(self.sample_rate_spec())
    }

    /// Creates a telemetry capability over an owned reporter.  A sample rate
    /// of zero is a configuration error, rejected here rather than at call
    /// time.
    pub fn new(reporter: R, sample_rate: Option<u32>) -> (r: Self)
        requires
            valid_sample_rate(sample_rate),
        ensures
            r.wf(),
            r.sample_rate_spec() == sample_rate,
            r.reporter_spec() == reporter,
    {
        HoneycombTelemetry { reporter, sample_rate }
    }

    /// Creates a visitor for accumulating a record's attributes.
    pub fn mk_visitor(&self) -> (v: HoneycombVisitor)
        ensures
            v.0.wf(),
            v.0@ == Map::<Seq<char>, crate::value::ValueView>::empty(),
    {
        HoneycombVisitor::new()
    }

    /// Decides whether records of the given trace are reported: a pure
    /// function of the sample rate and the trace identifier.
    pub fn should_report(&self, trace_id: &TraceId) -> (keep: bool)
        requires
            self.wf(),
        ensures
            keep == should_report_spec(self.sample_rate_spec(), *trace_id),
    {
        deterministic_sampler::should_report(self.sample_rate, trace_id)
    }

    /// Reports a completed span: consults the sampler with the span's trace
    /// identifier and, on a keep decision, flattens the span and hands the
    /// payload to the reporter, exactly once.  A dropped span changes
    /// nothing.
    pub fn report_span(&mut self, span: Span)
        requires
            old(self).wf(),
            span.wf(),
        ensures
            final(self).wf(),
            final(self).sample_rate_spec() == old(self).sample_rate_spec(),
            should_report_spec(old(self).sample_rate_spec(), span.trace_id)
                ==> final(self).reporter_spec().handed()
                == old(self).reporter_spec().handed().push(
                (span_flat_map(span), span.initialized_at),
            ),
            !should_report_spec(old(self).sample_rate_spec(), span.trace_id) ==> *final(self)
                == *old(self),
    {
        if self.should_report(&span.trace_id) {
            let (data, timestamp) = span_to_values(span);
            self.reporter.report_data(data, timestamp);
        }
    }

    /// Reports a point-in-time event, under the same sampling decision as
    /// every other record of its trace: on a keep decision the flattened
    /// event is handed to the reporter, exactly once.  A dropped event
    /// changes nothing.
    pub fn report_event(&mut self, event: Event)
        requires
            old(self).wf(),
            event.wf(),
        ensures
            final(self).wf(),
            final(self).sample_rate_spec() == old(self).sample_rate_spec(),
            should_report_spec(old(self).sample_rate_spec(), event.trace_id)
                ==> final(self).reporter_spec().handed()
                == old(self).reporter_spec().handed().push(
                (event_flat_map(event), event.timestamp),
            ),
            !should_report_spec(old(self).sample_rate_spec(), event.trace_id) ==> *final(self)
                == *old(self),
    {
        if self.should_report(&event.trace_id) {
            let (data, timestamp) = event_to_values(event);
            self.reporter.report_data(data, timestamp);
        }
    }

    /// The owned reporter, for inspection.
    pub fn reporter(&self) -> (r: &R)
        ensures
            *r == self.reporter_spec(),
    {
        &self.reporter
    }
}

/// Every span and event of one trace reaches the same sampling decision
/// under the same sample rate: the decision depends on nothing but the rate
/// and the shared trace identifier.
pub proof fn lemma_same_trace_same_decision(sample_rate: Option<u32>, span: Span, event: Event)
    requires
        span.trace_id == event.trace_id,
    ensures
        should_report_spec(sample_rate, span.trace_id) == should_report_spec(
            sample_rate,
            event.trace_id,
        ),
{
}

} // verus!
