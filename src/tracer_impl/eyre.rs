//! A trace backed by an eyre report: eyre captures a backtrace when the
//! trace starts and keeps the chain of messages, while the text of the
//! layers is kept beside it. eyre holds one backtrace per chain, so later
//! layers are added as messages only.
use vstd::prelude::*;

use crate::render::Render;
use crate::tracer::{join_layers, layered, ErrorMessageTracer, ErrorTracer};

verus! {

/// eyre's report, held as an opaque value.
#[verifier::external_type_specification]
#[verifier::external_body]
pub struct ExReport(color_eyre::eyre::Report);

/// Relies on eyre's `Report::msg`: a new report whose message is `message`.
/// Nothing is assumed of the report.
#[verifier::external_body]
fn report_from_message(message: String) -> color_eyre::eyre::Report {
    color_eyre::eyre::Report::msg(message)
}

/// Relies on eyre's `Report::wrap_err`: the report put under the new message
/// `message`. Nothing is assumed of the report.
#[verifier::external_body]
fn wrap_report(report: color_eyre::eyre::Report, message: String) -> color_eyre::eyre::Report {
    report.wrap_err(message)
}

/// A trace that keeps an eyre report, with the backtrace captured when the
/// trace started, beside the text of its layers, newest first.
#[derive(Debug)]
pub struct EyreTracer {
    report: color_eyre::eyre::Report,
    text: String,
}

impl EyreTracer {
    /// The eyre report, for printing with its backtrace.
    pub fn report(&self) -> &color_eyre::eyre::Report {
        &self.report
    }

    /// The eyre report, taken out of the trace.
    pub fn into_report(self) -> color_eyre::eyre::Report {
        self.report
    }

    /// A trace whose one layer reads `text`.
    fn start(text: String) -> (trace: Self)
        ensures
            trace.rendered() == text@,
    {
        let report = report_from_message(text.clone());
        EyreTracer { report, text }
    }

    /// This trace with `top` as its newest layer.
    fn put_on_top(self, top: String) -> (trace: Self)
        ensures
            trace.rendered() == layered(top@, self.rendered()),
    {
        let EyreTracer { report, text } = self;
        let report = wrap_report(report, top.clone());
        EyreTracer { report, text: join_layers(top, &text) }
    }
}

impl Render for EyreTracer {
    closed spec fn rendered(&self) -> Seq<char> {
        self.text@
    }

    fn render(&self) -> (text: String) {
        self.text.clone()
    }
}

impl ErrorMessageTracer for EyreTracer {
    fn new_message<E: Render>(message: &E) -> (trace: Self) {
        EyreTracer::start(message.render())
    }

    fn add_message<E: Render>(self, message: &E) -> (trace: Self) {
        self.put_on_top(message.render())
    }
}

impl<E: Render> ErrorTracer<E> for EyreTracer {
    fn new_trace(err: E) -> (trace: Self) {
        EyreTracer::start(err.render())
    }

    fn add_trace(self, err: E) -> (trace: Self) {
        self.put_on_top(err.render())
    }
}

} // verus!
