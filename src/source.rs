//! Extraction of a cause: the kinds of values that can stand as the cause of
//! a failure, and what each yields: a detail, and a trace when it has one.
use vstd::prelude::*;

use core::marker::PhantomData;

use crate::render::Render;
use crate::tracer::{rendered_opt, ErrorMessageTracer, ErrorTracer};

verus! {

/// A kind of cause. The implementing type is only a tag that selects, at
/// compile time, how a value of type `Source` is taken apart into a detail
/// of type `Detail` and an optional trace.
pub trait ErrorSource<Trace: ErrorMessageTracer> {
    /// The type of the cause value.
    type Source;

    /// The type of the detail that is kept from the cause.
    type Detail;

    /// Whether `detail` is a detail that extraction may keep from `source`.
    spec fn keeps_detail(source: Self::Source, detail: Self::Detail) -> bool;

    /// The rendering of the trace that extraction yields from `source`, or
    /// `None` when it yields no trace.
    spec fn trace_text(source: Self::Source) -> Option<Seq<char>>;

    /// Takes `source` apart into its detail and its trace, if any.
    fn error_details(source: Self::Source) -> (parts: (Self::Detail, Option<Trace>))
        ensures
            Self::keeps_detail(source, parts.0),
            rendered_opt(parts.1) == Self::trace_text(source),
    ;
}

/// Takes `source` apart as the kind `E` prescribes.
pub fn error_details<E, Trace>(source: E::Source) -> (parts: (E::Detail, Option<Trace>)) where
    E: ErrorSource<Trace>,
    Trace: ErrorMessageTracer,

    ensures
        E::keeps_detail(source, parts.0),
        rendered_opt(parts.1) == E::trace_text(source),
{
    E::error_details(source)
}

/// No cause at all: the cause and its detail are `()`, with no trace.
pub struct NoSource;

/// A cause that renders: kept whole as the detail, and its rendering starts
/// a trace.
pub struct DisplayError<E>(PhantomData<E>);

/// A cause that renders: only its rendering is kept, as a new trace; the
/// detail is `()`.
pub struct DisplayOnly<E>(PhantomData<E>);

/// A rich error value handed to the trace, which takes ownership of it; the
/// detail is `()`.
pub struct TraceError<E>(PhantomData<E>);

/// A rich error value handed to the trace, which takes ownership of it,
/// while a clone of it is kept as the detail.
pub struct TraceClone<E>(PhantomData<E>);

/// An existing trace, adopted unchanged; the detail is `()`.
pub struct TraceOnly<Tracer>(PhantomData<Tracer>);

/// A plain value kept unchanged as the detail, with no trace.
pub struct DetailOnly<Detail>(PhantomData<Detail>);

/// A report of the component's own error type: its detail is kept behind a
/// box, so that a detail can nest to any depth, and its trace is adopted.
pub struct BoxDetail<Detail>(PhantomData<Detail>);

impl<Detail, Trace: ErrorMessageTracer> ErrorSource<Trace> for DetailOnly<Detail> {
    type Source = Detail;

    type Detail = Detail;

    open spec fn keeps_detail(source: Detail, detail: Detail) -> bool {
        detail == source
    }

    open spec fn trace_text(source: Detail) -> Option<Seq<char>> {
        None
    }

    fn error_details(source: Detail) -> (parts: (Detail, Option<Trace>)) {
        (source, None)
    }
}

impl<Trace: ErrorMessageTracer> ErrorSource<Trace> for NoSource {
    type Source = ();

    type Detail = ();

    open spec fn keeps_detail(source: (), detail: ()) -> bool {
        true
    }

    open spec fn trace_text(source: ()) -> Option<Seq<char>> {
        None
    }

    fn error_details(source: ()) -> (parts: ((), Option<Trace>)) {
        ((), None)
    }
}

impl<Trace: ErrorMessageTracer> ErrorSource<Trace> for TraceOnly<Trace> {
    type Source = Trace;

    type Detail = ();

    open spec fn keeps_detail(source: Trace, detail: ()) -> bool {
        true
    }

    open spec fn trace_text(source: Trace) -> Option<Seq<char>> {
        Some(source.rendered())
    }

    fn error_details(source: Trace) -> (parts: ((), Option<Trace>)) {
        ((), Some(source))
    }
}

impl<E: Render, Trace: ErrorMessageTracer> ErrorSource<Trace> for DisplayError<E> {
    type Source = E;

    type Detail = E;

    open spec fn keeps_detail(source: E, detail: E) -> bool {
        detail == source
    }

    open spec fn trace_text(source: E) -> Option<Seq<char>> {
        Some(source.rendered())
    }

    fn error_details(source: E) -> (parts: (E, Option<Trace>)) {
        let trace = Trace::new_message(&source);
        (source, Some(trace))
    }
}

impl<E: Render, Trace: ErrorMessageTracer> ErrorSource<Trace> for DisplayOnly<E> {
    type Source = E;

    type Detail = ();

    open spec fn keeps_detail(source: E, detail: ()) -> bool {
        true
    }

    open spec fn trace_text(source: E) -> Option<Seq<char>> {
        Some(source.rendered())
    }

    fn error_details(source: E) -> (parts: ((), Option<Trace>)) {
        let trace = Trace::new_message(&source);
        ((), Some(trace))
    }
}

impl<E: Render + Clone, Trace: ErrorTracer<E>> ErrorSource<Trace> for TraceClone<E> {
    type Source = E;

    type Detail = E;

    open spec fn keeps_detail(source: E, detail: E) -> bool {
        cloned(source, detail)
    }

    open spec fn trace_text(source: E) -> Option<Seq<char>> {
        Some(source.rendered())
    }

    fn error_details(source: E) -> (parts: (E, Option<Trace>)) {
        let detail = source.clone();
        let trace = Trace::new_trace(source);
        (detail, Some(trace))
    }
}

impl<E: Render, Trace: ErrorTracer<E>> ErrorSource<Trace> for TraceError<E> {
    type Source = E;

    type Detail = ();

    open spec fn keeps_detail(source: E, detail: ()) -> bool {
        true
    }

    open spec fn trace_text(source: E) -> Option<Seq<char>> {
        Some(source.rendered())
    }

    fn error_details(source: E) -> (parts: ((), Option<Trace>)) {
        let trace = Trace::new_trace(source);
        ((), Some(trace))
    }
}

} // verus!
