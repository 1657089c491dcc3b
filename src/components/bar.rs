//! An upper component: a failure of its own, and one caused by a failure of
//! the `foo` component, whose report it takes over.
use vstd::prelude::*;

use crate::components::foo::{FooError, FooErrorDetail};
use crate::render::Render;
use crate::report::ErrorReport;
use crate::tracer::{layered, ErrorMessageTracer};
use crate::DefaultTracer;

verus! {

/// The detail of a `Bar` failure.
#[derive(Debug, PartialEq, Eq)]
pub struct BarSubdetail {
    pub bar: String,
}

/// The detail of a failure caused by the `foo` component: its own context
/// and the detail of the `foo` failure.
#[derive(Debug, PartialEq, Eq)]
pub struct FooSubdetail {
    pub detail: String,
    pub source: FooErrorDetail,
}

/// The kinds of failure of this component.
#[derive(Debug, PartialEq, Eq)]
pub enum BarErrorDetail {
    Bar(BarSubdetail),
    Foo(FooSubdetail),
}

/// A failure of this component.
pub type BarError = ErrorReport<BarErrorDetail, DefaultTracer>;

impl Clone for BarSubdetail {
    fn clone(&self) -> (copy: Self)
        ensures
            copy == *self,
    {
        BarSubdetail { bar: self.bar.clone() }
    }
}

impl Clone for FooSubdetail {
    fn clone(&self) -> (copy: Self)
        ensures
            copy == *self,
    {
        FooSubdetail { detail: self.detail.clone(), source: self.source.clone() }
    }
}

impl Clone for BarErrorDetail {
    fn clone(&self) -> (copy: Self)
        ensures
            copy == *self,
    {
        match self {
            BarErrorDetail::Bar(sub) => BarErrorDetail::Bar(sub.clone()),
            BarErrorDetail::Foo(sub) => BarErrorDetail::Foo(sub.clone()),
        }
    }
}

impl Render for BarSubdetail {
    open spec fn rendered(&self) -> Seq<char> {
        "bar error "@ + self.bar@
    }

    fn render(&self) -> (text: String) {
        String::from_str("bar error ").concat(self.bar.as_str())
    }
}

impl Render for FooSubdetail {
    open spec fn rendered(&self) -> Seq<char> {
        "error caused by foo: "@ + self.detail@
    }

    fn render(&self) -> (text: String) {
        String::from_str("error caused by foo: ").concat(self.detail.as_str())
    }
}

impl Render for BarErrorDetail {
    open spec fn rendered(&self) -> Seq<char> {
        match self {
            BarErrorDetail::Bar(sub) => sub.rendered(),
            BarErrorDetail::Foo(sub) => sub.rendered(),
        }
    }

    fn render(&self) -> (text: String) {
        match self {
            BarErrorDetail::Bar(sub) => sub.render(),
            BarErrorDetail::Foo(sub) => sub.render(),
        }
    }
}

/// A `Bar` failure with the value `bar`, with no cause.
pub fn bar_error(bar: String) -> (err: BarError)
    ensures
        err.0 == BarErrorDetail::Bar(BarSubdetail { bar }),
        err.1.rendered() == "bar error "@ + bar@,
{
    let detail = BarErrorDetail::Bar(BarSubdetail { bar });
    let trace = DefaultTracer::new_message(&detail);
    ErrorReport(detail, trace)
}

/// A failure caused by a failure of the `foo` component: its detail is kept
/// inside the new one, and its trace is kept whole under the new message.
pub fn foo_error(detail: String, source: FooError) -> (err: BarError)
    ensures
        err.0 == BarErrorDetail::Foo(FooSubdetail { detail, source: source.0 }),
        err.1.rendered() == layered("error caused by foo: "@ + detail@, source.1.rendered()),
{
    let ghost context = detail;
    BarError::trace_from::<FooError>(
        source,
        move |cause: FooErrorDetail| -> (made: BarErrorDetail)
            ensures
                made == BarErrorDetail::Foo((FooSubdetail { detail: context, source: cause })),
        {
            BarErrorDetail::Foo(FooSubdetail { detail, source: cause })
        })
}

} // verus!
