//! Structured error composition: each component declares a closed set of
//! failure kinds, and a failure of a lower component can become the cause of
//! one of its own kinds while its structured detail is kept and its causal
//! trail (the trace) is extended by one layer.
use vstd::prelude::*;

pub mod components;
pub mod render;
pub mod report;
pub mod source;
pub mod tracer;
pub mod tracer_impl;

verus! {

/// The trace backend that every component's error type uses.
pub type DefaultTracer = tracer_impl::string::StringTracer;

} // verus!
