//! A trace that is one string: each new message is written in front of what
//! was there, parted from it by `": "`.
use vstd::prelude::*;

use crate::render::Render;
use crate::tracer::{join_layers, ErrorMessageTracer, ErrorTracer};

verus! {

/// A trace held as the concatenation of its messages, newest first.
#[derive(Debug)]
pub struct StringTracer(pub String);

impl Render for StringTracer {
    open spec fn rendered(&self) -> Seq<char> {
        self.0@
    }

    fn render(&self) -> (text: String) {
        self.0.clone()
    }
}

impl ErrorMessageTracer for StringTracer {
    fn new_message<E: Render>(message: &E) -> (trace: Self) {
        StringTracer(message.render())
    }

    fn add_message<E: Render>(self, message: &E) -> (trace: Self) {
        StringTracer(join_layers(message.render(), &self.0))
    }
}

impl<E: Render> ErrorTracer<E> for StringTracer {
    fn new_trace(err: E) -> (trace: Self) {
        StringTracer(err.render())
    }

    fn add_trace(self, err: E) -> (trace: Self) {
        StringTracer(join_layers(err.render(), &self.0))
    }
}

} // verus!
