//! The error report: a structured detail together with the trace that
//! records how the failure came about.
use vstd::prelude::*;

use core::cmp::Ordering;
use vstd::std_specs::cmp::{PartialEqSpec, PartialOrdSpec};

use crate::render::Render;
use crate::source::{BoxDetail, ErrorSource};
use crate::tracer::{layered, stacked, ErrorMessageTracer};

verus! {

/// A failure as callers hold it: its detail, which alone decides equality
/// and order, and its trace, which is diagnostic only. The trace's newest
/// layer always renders the current detail.
#[derive(Debug)]
pub struct ErrorReport<Detail, Trace>(pub Detail, pub Trace);

/// A report is itself a cause: its detail is kept and its trace adopted.
impl<Detail, Trace: ErrorMessageTracer> ErrorSource<Trace> for ErrorReport<Detail, Trace> {
    type Source = Self;

    type Detail = Detail;

    open spec fn keeps_detail(source: Self, detail: Detail) -> bool {
        detail == source.0
    }

    open spec fn trace_text(source: Self) -> Option<Seq<char>> {
        Some(source.1.rendered())
    }

    fn error_details(source: Self) -> (parts: (Detail, Option<Trace>)) {
        let ErrorReport(detail, trace) = source;
        (detail, Some(trace))
    }
}

impl<Detail, Trace: ErrorMessageTracer> ErrorSource<Trace> for BoxDetail<Detail> {
    type Source = ErrorReport<Detail, Trace>;

    type Detail = Box<Detail>;

    open spec fn keeps_detail(source: ErrorReport<Detail, Trace>, detail: Box<Detail>) -> bool {
        *detail == source.0
    }

    open spec fn trace_text(source: ErrorReport<Detail, Trace>) -> Option<Seq<char>> {
        Some(source.1.rendered())
    }

    fn error_details(source: ErrorReport<Detail, Trace>) -> (parts: (Box<Detail>, Option<Trace>)) {
        let ErrorReport(detail, trace) = source;
        (Box::new(detail), Some(trace))
    }
}

impl<Detail, Trace> ErrorReport<Detail, Trace> {
    /// A report made of `detail` and `trace` as they are.
    pub fn new(detail: Detail, trace: Trace) -> (report: Self)
        ensures
            report.0 == detail,
            report.1 == trace,
    {
        ErrorReport(detail, trace)
    }

    /// The structured detail.
    pub fn detail(&self) -> (detail: &Detail)
        ensures
            *detail == self.0,
    {
        &self.0
    }

    /// The trace.
    pub fn trace(&self) -> (trace: &Trace)
        ensures
            *trace == self.1,
    {
        &self.1
    }

    /// The structured detail, taken out of the report.
    pub fn into_detail(self) -> (detail: Detail)
        ensures
            detail == self.0,
    {
        self.0
    }

    /// The trace, taken out of the report.
    pub fn into_trace(self) -> (trace: Trace)
        ensures
            trace == self.1,
    {
        self.1
    }

    /// Puts the rendering of `message` on top of the trace, leaving the
    /// detail as it is: context for a failure without a new kind of failure.
    pub fn add_trace<E: Render>(self, message: &E) -> (report: Self) where
        Trace: ErrorMessageTracer,

        ensures
            report.0 == self.0,
            report.1.rendered() == layered(message.rendered(), self.1.rendered()),
    {
        let ErrorReport(detail, trace) = self;
        let trace = trace.add_message(message);
        ErrorReport(detail, trace)
    }

    /// Builds a report from a cause: extracts the cause's detail and trace
    /// as the kind `E` prescribes, lets `cont` fold that detail into this
    /// layer's own detail, and puts the new detail's rendering on top of the
    /// cause's trace, or starts a trace from it when the cause had none.
    /// Exactly one layer is added, however deep the cause's trace already is.
    pub fn trace_from<E>(source: E::Source, cont: impl FnOnce(E::Detail) -> Detail) -> (report:
        Self) where
        Detail: Render,
        E: ErrorSource<Trace>,
        Trace: ErrorMessageTracer,

        requires
            forall|d: E::Detail| #[trigger] E::keeps_detail(source, d) ==> cont.requires((d,)),
        ensures
            exists|d: E::Detail| #[trigger]
                E::keeps_detail(source, d) && cont.ensures((d,), report.0),
            report.1.rendered() == stacked(report.0.rendered(), E::trace_text(source)),
    {
        let (detail1, m_trace1) = E::error_details(source);
        let detail2 = cont(detail1);
        match m_trace1 {
            Some(trace1) => {
                let trace2 = trace1.add_message(&detail2);
                ErrorReport(detail2, trace2)
            },
            None => {
                let trace2 = Trace::new_message(&detail2);
                ErrorReport(detail2, trace2)
            },
        }
    }
}

/// A report renders as its trace.
impl<Detail, Trace: Render> Render for ErrorReport<Detail, Trace> {
    open spec fn rendered(&self) -> Seq<char> {
        self.1.rendered()
    }

    fn render(&self) -> (text: String) {
        self.1.render()
    }
}

impl<Detail, Trace: Render> ErrorReport<Detail, Trace> {
    /// The two parts in which a report is stored: its detail and the
    /// rendering of its trace.
    pub fn serialized_parts(&self) -> (parts: (&Detail, String))
        ensures
            *parts.0 == self.0,
            parts.1@ == self.1.rendered(),
    {
        (&self.0, self.1.render())
    }
}

impl<Detail, Trace: ErrorMessageTracer> ErrorReport<Detail, Trace> {
    /// Rebuilds a report from its stored parts; the trace comes back as a
    /// trace started from the stored text.
    pub fn from_serialized_parts(detail: Detail, message: String) -> (report: Self)
        ensures
            report.0 == detail,
            report.1.rendered() == message@,
    {
        let trace = Trace::new_message(&message);
        ErrorReport(detail, trace)
    }
}

/// A clone keeps a clone of the detail; the trace is not duplicated but
/// started afresh from the text of the trace it copies.
impl<Detail: Clone, Trace: ErrorMessageTracer> Clone for ErrorReport<Detail, Trace> {
    fn clone(&self) -> (report: Self)
        ensures
            cloned(self.0, report.0),
            report.1.rendered() == self.1.rendered(),
    {
        ErrorReport(self.0.clone(), Trace::new_message(&self.1))
    }
}

/// Reports compare as their details do; the trace takes no part.
impl<Detail: PartialEq, Trace> PartialEq for ErrorReport<Detail, Trace> {
    fn eq(&self, other: &Self) -> (same: bool) {
        self.0.eq(&other.0)
    }
}

impl<Detail: PartialEq, Trace> vstd::std_specs::cmp::PartialEqSpecImpl for ErrorReport<Detail, Trace> {
    open spec fn obeys_eq_spec() -> bool {
        Detail::obeys_eq_spec()
    }

    open spec fn eq_spec(&self, other: &Self) -> bool {
        self.0.eq_spec(&other.0)
    }
}

impl<Detail: Eq, Trace> Eq for ErrorReport<Detail, Trace> {

}

/// Reports are ordered as their details are; the trace takes no part.
impl<Detail: PartialOrd, Trace> PartialOrd for ErrorReport<Detail, Trace> {
    fn partial_cmp(&self, other: &Self) -> (order: Option<Ordering>) {
        self.0.partial_cmp(&other.0)
    }
}

impl<Detail: PartialOrd, Trace> vstd::std_specs::cmp::PartialOrdSpecImpl for ErrorReport<Detail, Trace> {
    open spec fn obeys_partial_cmp_spec() -> bool {
        Detail::obeys_partial_cmp_spec()
    }

    open spec fn partial_cmp_spec(&self, other: &Self) -> Option<Ordering> {
        self.0.partial_cmp_spec(&other.0)
    }
}

/// Equality of reports is equality of their details: two reports with equal
/// details are equal, whatever their traces hold.
pub proof fn lemma_eq_ignores_trace<Detail: PartialEq, Trace>(
    d1: Detail,
    t1: Trace,
    d2: Detail,
    t2: Trace,
)
    ensures
        ErrorReport::<Detail, Trace>::obeys_eq_spec() == Detail::obeys_eq_spec(),
        ErrorReport(d1, t1).eq_spec(&ErrorReport(d2, t2)) == d1.eq_spec(&d2),
{
}

/// Reports are ordered as their details are, whatever their traces hold.
pub proof fn lemma_order_ignores_trace<Detail: PartialOrd, Trace>(
    d1: Detail,
    t1: Trace,
    d2: Detail,
    t2: Trace,
)
    ensures
        ErrorReport::<Detail, Trace>::obeys_partial_cmp_spec()
            == Detail::obeys_partial_cmp_spec(),
        ErrorReport(d1, t1).partial_cmp_spec(&ErrorReport(d2, t2)) == d1.partial_cmp_spec(&d2),
{
}

/// Storing a report as its parts and rebuilding it from them gives back the
/// same detail and a trace that renders the same text.
pub proof fn lemma_serialized_round_trip<Detail, Trace: ErrorMessageTracer>(
    report: ErrorReport<Detail, Trace>,
    parts: (&Detail, String),
    back: ErrorReport<Detail, Trace>,
)
    requires
        call_ensures(ErrorReport::<Detail, Trace>::serialized_parts, (&report,), parts),
        call_ensures(
            ErrorReport::<Detail, Trace>::from_serialized_parts,
            (*parts.0, parts.1),
            back,
        ),
    ensures
        back.0 == report.0,
        back.1.rendered() == report.1.rendered(),
{
}

} // verus!
