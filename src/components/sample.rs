//! A component whose `Bar` kind is caused by an external error that renders:
//! the error is kept as the detail and its rendering starts the trace.
use vstd::prelude::*;

use crate::render::Render;
use crate::report::ErrorReport;
use crate::source::DisplayError;
use crate::tracer::{layered, ErrorMessageTracer};
use crate::DefaultTracer;

verus! {

/// An external error that renders as `external`.
#[derive(Debug, Clone, Copy, PartialEq, Eq)]
pub struct ExternalError;

impl Render for ExternalError {
    open spec fn rendered(&self) -> Seq<char> {
        "external"@
    }

    fn render(&self) -> (text: String) {
        String::from_str("external")
    }
}

/// The detail of a `Bar` failure: a code and the external error.
#[derive(Debug, PartialEq, Eq)]
pub struct BarSubdetail {
    pub code: u32,
    pub source: ExternalError,
}

/// The detail of a `Baz` failure.
#[derive(Debug, PartialEq, Eq)]
pub struct BazSubdetail {
    pub extra: String,
}

/// The kinds of failure of this component.
#[derive(Debug, PartialEq, Eq)]
pub enum FooErrorDetail {
    Bar(BarSubdetail),
    Baz(BazSubdetail),
}

/// A failure of this component.
pub type FooError = ErrorReport<FooErrorDetail, DefaultTracer>;

impl Clone for BarSubdetail {
    fn clone(&self) -> (copy: Self)
        ensures
            copy == *self,
    {
        BarSubdetail { code: self.code, source: self.source }
    }
}

impl Clone for BazSubdetail {
    fn clone(&self) -> (copy: Self)
        ensures
            copy == *self,
    {
        BazSubdetail { extra: self.extra.clone() }
    }
}

impl Clone for FooErrorDetail {
    fn clone(&self) -> (copy: Self)
        ensures
            copy == *self,
    {
        match self {
            FooErrorDetail::Bar(sub) => FooErrorDetail::Bar(sub.clone()),
            FooErrorDetail::Baz(sub) => FooErrorDetail::Baz(sub.clone()),
        }
    }
}

impl Render for BarSubdetail {
    open spec fn rendered(&self) -> Seq<char> {
        "Bar error with code "@ + self.code.rendered()
    }

    fn render(&self) -> (text: String) {
        let code = self.code.render();
        String::from_str("Bar error with code ").concat(code.as_str())
    }
}

impl Render for BazSubdetail {
    open spec fn rendered(&self) -> Seq<char> {
        "General Baz error with extra detail: "@ + self.extra@
    }

    fn render(&self) -> (text: String) {
        String::from_str("General Baz error with extra detail: ").concat(self.extra.as_str())
    }
}

impl Render for FooErrorDetail {
    open spec fn rendered(&self) -> Seq<char> {
        match self {
            FooErrorDetail::Bar(sub) => sub.rendered(),
            FooErrorDetail::Baz(sub) => sub.rendered(),
        }
    }

    fn render(&self) -> (text: String) {
        match self {
            FooErrorDetail::Bar(sub) => sub.render(),
            FooErrorDetail::Baz(sub) => sub.render(),
        }
    }
}

/// A `Bar` failure with `code`, caused by an external error that is kept as
/// part of the detail and whose rendering starts the trace.
pub fn bar_error(code: u32, source: ExternalError) -> (err: FooError)
    ensures
        err.0 == FooErrorDetail::Bar(BarSubdetail { code, source }),
        err.1.rendered() == layered("Bar error with code "@ + code.rendered(), source.rendered()),
{
    FooError::trace_from::<DisplayError<ExternalError>>(
        source,
        move |cause: ExternalError| -> (detail: FooErrorDetail)
            ensures
                detail == FooErrorDetail::Bar((BarSubdetail { code, source: cause })),
        {
            FooErrorDetail::Bar(BarSubdetail { code, source: cause })
        })
}

/// A `Baz` failure with the value `extra`, with no cause.
pub fn baz_error(extra: String) -> (err: FooError)
    ensures
        err.0 == FooErrorDetail::Baz(BazSubdetail { extra }),
        err.1.rendered() == "General Baz error with extra detail: "@ + extra@,
{
    let detail = FooErrorDetail::Baz(BazSubdetail { extra });
    let trace = DefaultTracer::new_message(&detail);
    ErrorReport(detail, trace)
}

} // verus!
