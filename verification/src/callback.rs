//! The optional per-line callback of a run, with a record of its calls.

use vstd::prelude::*;

verus! {

/// What a caller supplies to be told of each line as it arrives: a function
/// value, or nothing.
///
/// Beside the function the value keeps, in ghost state, a record of the
/// lines that `notify` has handed to the function, in the order in which it
/// did. The fields are private and `notify` is the one place that writes the
/// record. That the function itself ran on a line is stated apart from the
/// record, by `returned_from`, which only a call of the function can
/// establish.
pub struct LineCallback<F: Fn(String)> {
    handler: Option<F>,
    calls: Ghost<Seq<Seq<char>>>,
}

impl<F: Fn(String)> LineCallback<F> {
    /// The supplied function, if any.
    pub closed spec fn handler(&self) -> Option<F> {
        self.handler
    }

    /// Whether a function was supplied.
    pub open spec fn is_set(&self) -> bool {
        self.handler() is Some
    }

    /// The supplied function, if any, was called with `line` and returned.
    pub open spec fn returned_from(&self, line: String) -> bool {
        self.handler() matches Some(f) ==> call_ensures(f, (line,), ())
    }

    /// The lines that were handed to the function so far, oldest first. It
    /// stays empty where no function was supplied.
    pub closed spec fn calls(&self) -> Seq<Seq<char>> {
        self.calls@
    }

    /// The record of calls once the callback has been told of `lines`, one
    /// after the other: longer by `lines` where a function was supplied, and
    /// as it is where none was.
    pub open spec fn calls_after(&self, lines: Seq<Seq<char>>) -> Seq<Seq<char>> {
        if self.is_set() {
            self.calls() + lines
        } else {
            self.calls()
        }
    }

    /// The supplied function, if any, may be called with every line.
    #[verifier::type_invariant]
    spec fn accepts_every_line(&self) -> bool {
        self.handler matches Some(f) ==> forall|line: String| call_requires(f, (line,))
    }

    /// Takes the caller's function, or `None`, with no call made yet.
    pub fn new(on_line: Option<F>) -> (callback: Self)
        requires
            on_line matches Some(f) ==> forall|line: String| call_requires(f, (line,)),
        ensures
            callback.handler() == on_line,
            callback.calls() == Seq::<Seq<char>>::empty(),
    {
        LineCallback { handler: on_line, calls: Ghost(Seq::empty()) }
    }

    /// Calls the supplied function once with `line`; does nothing where none
    /// was supplied.
    pub fn notify(&mut self, line: String)
        ensures
            final(self).handler() == old(self).handler(),
            old(self).returned_from(line),
            final(self).calls() == old(self).calls_after(seq![line@]),
    {
        proof {
            use_type_invariant(&*self);
        }
        match &self.handler {
            Some(f) => {
                f(line);
                self.calls = Ghost(self.calls@ + seq![line@]);
            },
            None => {},
        }
    }
}

} // verus!
