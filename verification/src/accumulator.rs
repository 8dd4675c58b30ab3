//! The output accumulator of one run.

use vstd::prelude::*;
use crate::callback::LineCallback;
use crate::error::ExecutionError;
use crate::lines::{join_lines, joined};

verus! {

/// The lines kept so far by one run, in the order in which they arrived.
pub struct Accumulator {
    lines: Vec<String>,
}

impl View for Accumulator {
    type V = Seq<Seq<char>>;

    closed spec fn view(&self) -> Seq<Seq<char>> {
        self.lines.deep_view()
    }
}

impl Accumulator {
    /// An accumulator that holds no line.
    pub fn new() -> (acc: Self)
        ensures
            acc@ == Seq::<Seq<char>>::empty(),
    {
        let acc = Accumulator { lines: Vec::new() };
        assert(acc.lines.deep_view() =~= Seq::<Seq<char>>::empty());
        acc
    }

    /// Takes one read of the script's output. A read that yielded text is
    /// handed to the callback and then kept as the newest line; a read that
    /// yielded none is dropped without a call.
    pub fn accept<F: Fn(String)>(&mut self, read: Option<String>, on_line: &mut LineCallback<F>)
        ensures
            final(self)@ == (match read {
                Some(line) => old(self)@.push(line@),
                None => old(self)@,
            }),
            final(on_line).handler() == old(on_line).handler(),
            read matches Some(line) ==> old(on_line).returned_from(line),
            final(on_line).calls() == (match read {
                Some(line) => old(on_line).calls_after(seq![line@]),
                None => old(on_line).calls(),
            }),
    {
        match read {
            Some(line) => {
                on_line.notify(line.clone());
                let ghost before = self.lines.deep_view();
                self.lines.push(line);
                assert(self.lines.deep_view() =~= before.push(line@));
            },
            None => {},
        }
    }

    /// Ends a run whose output was read to its end. Such a run has
    /// succeeded, whatever it printed and however the script ended, and its
    /// result is the kept lines, joined by line feeds.
    pub fn into_result(self) -> (result: Result<String, ExecutionError>)
        ensures
            result matches Ok(out) && out@ == joined(self@),
    {
        Ok(self.into_output())
    }

    /// Ends the run: the kept lines, joined by line feeds.
    pub fn into_output(self) -> (out: String)
        ensures
            out@ == joined(self@),
    {
        join_lines(&self.lines)
    }
}

} // verus!
