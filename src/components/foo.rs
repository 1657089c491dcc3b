//! A lower component: a failure caused by a primitive value, one caused by
//! an external system error, one with no cause, and one caused by a failure
//! of this same component.
use vstd::prelude::*;

use crate::render::Render;
use crate::report::ErrorReport;
use crate::source::{BoxDetail, DetailOnly, TraceError};
use crate::tracer::{layered, ErrorMessageTracer};
use crate::DefaultTracer;

verus! {

/// A primitive failure value with no message of its own.
#[derive(Debug, Clone, Copy, PartialEq, Eq)]
pub struct PrimitiveError;

/// An external error with two variants.
#[derive(Debug, Clone, Copy, PartialEq, Eq)]
pub enum SystemError {
    Error1,
    Error2,
}

impl Render for SystemError {
    open spec fn rendered(&self) -> Seq<char> {
        match self {
            SystemError::Error1 => "error1"@,
            SystemError::Error2 => "error2"@,
        }
    }

    fn render(&self) -> (text: String) {
        match self {
            SystemError::Error1 => String::from_str("error1"),
            SystemError::Error2 => String::from_str("error2"),
        }
    }
}

/// The detail of a `Foo` failure.
#[derive(Debug, PartialEq, Eq)]
pub struct FooSubdetail {
    pub foo_val: String,
    pub source: PrimitiveError,
}

/// The detail of a `System` failure; the system error itself went to the trace.
#[derive(Debug, PartialEq, Eq)]
pub struct SystemSubdetail {
    pub source: (),
}

/// The detail of an `Unknown` failure.
#[derive(Debug, PartialEq, Eq)]
pub struct UnknownSubdetail {}

/// The detail of a `Nested` failure: the detail of the failure of this
/// component that caused it.
#[derive(Debug, PartialEq, Eq)]
pub struct NestedSubdetail {
    pub source: Box<FooErrorDetail>,
}

/// The kinds of failure of this component.
#[derive(Debug, PartialEq, Eq)]
pub enum FooErrorDetail {
    Foo(FooSubdetail),
    System(SystemSubdetail),
    Unknown(UnknownSubdetail),
    Nested(NestedSubdetail),
}

/// An exact copy of `detail`, at any depth of nesting.
fn copy_detail(detail: &FooErrorDetail) -> (copy: FooErrorDetail)
    ensures
        copy == *detail,
    decreases detail,
{
    match detail {
        FooErrorDetail::Foo(sub) => FooErrorDetail::Foo(
            FooSubdetail { foo_val: sub.foo_val.clone(), source: sub.source },
        ),
        FooErrorDetail::System(_) => FooErrorDetail::System(SystemSubdetail { source: () }),
        FooErrorDetail::Unknown(_) => FooErrorDetail::Unknown(UnknownSubdetail {  }),
        FooErrorDetail::Nested(sub) => FooErrorDetail::Nested(
            NestedSubdetail { source: Box::new(copy_detail(&sub.source)) },
        ),
    }
}

impl Clone for FooSubdetail {
    fn clone(&self) -> (copy: Self)
        ensures
            copy == *self,
    {
        FooSubdetail { foo_val: self.foo_val.clone(), source: self.source }
    }
}

impl Clone for SystemSubdetail {
    fn clone(&self) -> (copy: Self)
        ensures
            copy == *self,
    {
        SystemSubdetail { source: () }
    }
}

impl Clone for UnknownSubdetail {
    fn clone(&self) -> (copy: Self)
        ensures
            copy == *self,
    {
        UnknownSubdetail {  }
    }
}

impl Clone for NestedSubdetail {
    fn clone(&self) -> (copy: Self)
        ensures
            copy == *self,
    {
        NestedSubdetail { source: Box::new(copy_detail(&self.source)) }
    }
}

impl Clone for FooErrorDetail {
    fn clone(&self) -> (copy: Self)
        ensures
            copy == *self,
    {
        copy_detail(self)
    }
}

/// A failure of this component.
pub type FooError = ErrorReport<FooErrorDetail, DefaultTracer>;

impl Render for FooSubdetail {
    open spec fn rendered(&self) -> Seq<char> {
        "foo error: "@ + self.foo_val@
    }

    fn render(&self) -> (text: String) {
        String::from_str("foo error: ").concat(self.foo_val.as_str())
    }
}

impl Render for SystemSubdetail {
    open spec fn rendered(&self) -> Seq<char> {
        "system error"@
    }

    fn render(&self) -> (text: String) {
        String::from_str("system error")
    }
}

impl Render for UnknownSubdetail {
    open spec fn rendered(&self) -> Seq<char> {
        "unknown error"@
    }

    fn render(&self) -> (text: String) {
        String::from_str("unknown error")
    }
}

impl Render for NestedSubdetail {
    open spec fn rendered(&self) -> Seq<char> {
        "nested foo error"@
    }

    fn render(&self) -> (text: String) {
        String::from_str("nested foo error")
    }
}

impl Render for FooErrorDetail {
    open spec fn rendered(&self) -> Seq<char> {
        match self {
            FooErrorDetail::Foo(sub) => sub.rendered(),
            FooErrorDetail::System(sub) => sub.rendered(),
            FooErrorDetail::Unknown(sub) => sub.rendered(),
            FooErrorDetail::Nested(sub) => sub.rendered(),
        }
    }

    fn render(&self) -> (text: String) {
        match self {
            FooErrorDetail::Foo(sub) => sub.render(),
            FooErrorDetail::System(sub) => sub.render(),
            FooErrorDetail::Unknown(sub) => sub.render(),
            FooErrorDetail::Nested(sub) => sub.render(),
        }
    }
}

/// How many `Nested` layers wrap the innermost detail.
pub open spec fn nesting_depth(detail: FooErrorDetail) -> nat
    decreases detail,
{
    match detail {
        FooErrorDetail::Nested(sub) => 1 + nesting_depth(*sub.source),
        _ => 0,
    }
}

/// Whether `outer` is a `Nested` detail that holds `inner`.
pub open spec fn nests(outer: FooErrorDetail, inner: FooErrorDetail) -> bool {
    match outer {
        FooErrorDetail::Nested(sub) => *sub.source == inner,
        _ => false,
    }
}

/// A `Foo` failure with the value `foo_val`, caused by a primitive error.
pub fn foo_error(foo_val: String, source: PrimitiveError) -> (err: FooError)
    ensures
        err.0 == FooErrorDetail::Foo(FooSubdetail { foo_val, source }),
        err.1.rendered() == "foo error: "@ + foo_val@,
{
    let ghost val = foo_val;
    FooError::trace_from::<DetailOnly<PrimitiveError>>(
        source,
        move |cause: PrimitiveError| -> (detail: FooErrorDetail)
            ensures
                detail == FooErrorDetail::Foo((FooSubdetail { foo_val: val, source: cause })),
        {
            FooErrorDetail::Foo(FooSubdetail { foo_val, source: cause })
        })
}

/// A `System` failure caused by an external system error, which the trace
/// takes over.
pub fn system_error(source: SystemError) -> (err: FooError)
    ensures
        err.0 == FooErrorDetail::System(SystemSubdetail { source: () }),
        err.1.rendered() == layered("system error"@, source.rendered()),
{
    FooError::trace_from::<TraceError<SystemError>>(
        source,
        |cause: ()| -> (detail: FooErrorDetail)
            ensures
                detail == FooErrorDetail::System((SystemSubdetail { source: cause })),
        {
            FooErrorDetail::System(SystemSubdetail { source: cause })
        })
}

/// An `Unknown` failure, with no cause.
pub fn unknown_error() -> (err: FooError)
    ensures
        err.0 == FooErrorDetail::Unknown(UnknownSubdetail {  }),
        err.1.rendered() == "unknown error"@,
{
    let detail = FooErrorDetail::Unknown(UnknownSubdetail {  });
    let trace = DefaultTracer::new_message(&detail);
    ErrorReport(detail, trace)
}

/// A `Nested` failure caused by a failure of this same component: the
/// detail nests one level deeper and the cause's trace is kept whole under
/// the new message.
pub fn nested_error(source: FooError) -> (err: FooError)
    ensures
        nests(err.0, source.0),
        nesting_depth(err.0) == nesting_depth(source.0) + 1,
        err.1.rendered() == layered("nested foo error"@, source.1.rendered()),
{
    FooError::trace_from::<BoxDetail<FooErrorDetail>>(
        source,
        |cause: Box<FooErrorDetail>| -> (detail: FooErrorDetail)
            ensures
                detail == FooErrorDetail::Nested((NestedSubdetail { source: cause })),
        {
            FooErrorDetail::Nested(NestedSubdetail { source: cause })
        })
}

} // verus!
