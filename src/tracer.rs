//! What an error trace offers: starting a trail of messages and putting one
//! more message on top of it.
use vstd::prelude::*;

use crate::render::Render;

verus! {

/// The two characters that part one layer of a trace from the next.
pub open spec fn separator() -> Seq<char> {
    seq![':', ' ']
}

/// The rendering of a trace whose newest layer reads `top` over an older
/// trace that reads `below`: newest first, and the older text kept verbatim.
pub open spec fn layered(top: Seq<char>, below: Seq<char>) -> Seq<char> {
    top + separator() + below
}

/// The rendering of a trace that starts from `top`, put over an older trace
/// when there is one.
pub open spec fn stacked(top: Seq<char>, below: Option<Seq<char>>) -> Seq<char> {
    match below {
        Some(text) => layered(top, text),
        None => top,
    }
}

/// The rendering of an optional trace.
pub open spec fn rendered_opt<Trace: Render>(trace: Option<Trace>) -> Option<Seq<char>> {
    match trace {
        Some(t) => Some(t.rendered()),
        None => None,
    }
}

/// The text of `top` followed by the separator and `below`.
pub fn join_layers(top: String, below: &String) -> (text: String)
    ensures
        text@ == layered(top@, below@),
{
    proof {
        reveal_strlit(": ");
    }
    let with_separator = top.concat(": ");
    assert(with_separator@ == top@ + separator());
    with_separator.concat(below.as_str())
}

/// A trace built from messages: anything that renders can start a trace or
/// be put on top of one. Putting a message on top never loses what the
/// trace held before.
pub trait ErrorMessageTracer: Render + Sized {
    /// Starts a trace whose only layer is the rendering of `message`.
    fn new_message<E: Render>(message: &E) -> (trace: Self)
        ensures
            trace.rendered() == message.rendered(),
    ;

    /// Puts the rendering of `message` on top of this trace.
    fn add_message<E: Render>(self, message: &E) -> (trace: Self)
        ensures
            trace.rendered() == layered(message.rendered(), self.rendered()),
    ;
}

/// A trace that can also take ownership of a richer error value `E`, which
/// it may keep (with a backtrace, say) beyond its rendering.
pub trait ErrorTracer<E: Render>: ErrorMessageTracer {
    /// Starts a trace from `err`, taking ownership of it.
    fn new_trace(err: E) -> (trace: Self)
        ensures
            trace.rendered() == err.rendered(),
    ;

    /// Puts `err` on top of this trace, taking ownership of it.
    fn add_trace(self, err: E) -> (trace: Self)
        ensures
            trace.rendered() == layered(err.rendered(), self.rendered()),
    ;
}

/// A trace started from `first` with `second` put on top reads the newest
/// message first: `second`, the separator, then `first`.
pub proof fn lemma_newest_first<Trace: ErrorMessageTracer, E1: Render, E2: Render>(
    first: &E1,
    second: &E2,
    started: Trace,
    extended: Trace,
)
    requires
        call_ensures(Trace::new_message::<E1>, (first,), started),
        call_ensures(Trace::add_message::<E2>, (started, second), extended),
    ensures
        extended.rendered() == second.rendered() + separator() + first.rendered(),
{
}

/// Three layers put one over another read from the newest to the root: the
/// top message, the middle one, then the root message, each parted by the
/// separator; and each earlier trace stays whole at the end of the later one.
pub proof fn lemma_layers_in_order<Trace: ErrorMessageTracer, E1: Render, E2: Render, E3: Render>(
    root: &E1,
    middle: &E2,
    top: &E3,
    t1: Trace,
    t2: Trace,
    t3: Trace,
)
    requires
        call_ensures(Trace::new_message::<E1>, (root,), t1),
        call_ensures(Trace::add_message::<E2>, (t1, middle), t2),
        call_ensures(Trace::add_message::<E3>, (t2, top), t3),
    ensures
        t3.rendered() == top.rendered() + separator() + middle.rendered() + separator()
            + root.rendered(),
        t3.rendered().subrange(t3.rendered().len() - t2.rendered().len(), t3.rendered().len() as int)
            == t2.rendered(),
        t2.rendered().subrange(t2.rendered().len() - t1.rendered().len(), t2.rendered().len() as int)
            == t1.rendered(),
{
    assert(t3.rendered() =~= top.rendered() + separator() + middle.rendered() + separator()
        + root.rendered());
    assert(t3.rendered().subrange(
        t3.rendered().len() - t2.rendered().len(),
        t3.rendered().len() as int,
    ) =~= t2.rendered());
    assert(t2.rendered().subrange(
        t2.rendered().len() - t1.rendered().len(),
        t2.rendered().len() as int,
    ) =~= t1.rendered());
}

} // verus!
