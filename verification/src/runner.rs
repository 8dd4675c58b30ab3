//! A whole run, from what its process gave to what the caller gets.

use vstd::prelude::*;
use crate::accumulator::Accumulator;
use crate::callback::LineCallback;
use crate::error::ExecutionError;
use crate::lines::{decoded, joined};

verus! {

/// What became of starting the interpreter and reading its standard output
/// to the end.
#[derive(Debug, PartialEq, Eq)]
pub enum Capture {
    /// The script could not be started: its file could not be had, or the
    /// interpreter could not be launched. The text is the operating system's
    /// account of why.
    NotStarted(String),
    /// The interpreter started, but its standard output could not be had.
    NoStdout,
    /// The reads of the standard output, one per line, until it closed. A
    /// read that yielded no text is `None`.
    Stdout(Vec<Option<String>>),
}

/// Runs the accumulator over a finished stream of reads: every read is
/// accepted in turn, and the kept lines are joined.
///
/// A supplied callback is called once for each kept line, in the order of
/// the reads, and has returned from each of these calls when the run ends.
/// The output is those same lines joined: what the callback was told during
/// the run, and in that order, is what the caller gets.
pub fn collect_output<F: Fn(String)>(
    reads: Vec<Option<String>>,
    on_line: &mut LineCallback<F>,
) -> (out: String)
    ensures
        out@ == joined(decoded(reads.deep_view())),
        final(on_line).handler() == old(on_line).handler(),
        forall|i: int|
            0 <= i < reads.len() ==> (#[trigger] reads[i] matches Some(line) ==> old(
                on_line,
            ).returned_from(line)),
        final(on_line).calls() == old(on_line).calls_after(decoded(reads.deep_view())),
        old(on_line).is_set() ==> out@ == joined(
            final(on_line).calls().skip(old(on_line).calls().len() as int),
        ),
{
    let ghost all = reads.deep_view();
    let ghost given = reads@;
    let mut acc = Accumulator::new();
    for read in it: reads
        invariant
            it.seq() == given,
            all.len() == given.len(),
            forall|i: int| 0 <= i < all.len() ==> (#[trigger] given[i]).deep_view() == all[i],
            acc@ == decoded(all.take(it.index())),
            on_line.handler() == old(on_line).handler(),
            forall|i: int|
                0 <= i < it.index() ==> (#[trigger] given[i] matches Some(line) ==> old(
                    on_line,
                ).returned_from(line)),
            on_line.calls() == old(on_line).calls_after(decoded(all.take(it.index()))),
    {
        proof {
            let upto = all.take(it.index() + 1);
            assert(upto.drop_last() =~= all.take(it.index()));
            assert(upto.last() == read.deep_view());
        }
        acc.accept(read, on_line);
    }
    proof {
        assert(all.take(all.len() as int) =~= all);
        let before = old(on_line).calls();
        assert((before + decoded(all)).skip(before.len() as int) =~= decoded(all));
    }
    acc.into_output()
}

/// The result of a run. It succeeds exactly where the standard output was
/// read, whatever it held and however the script ended; the callback is
/// called for the kept lines of such a run and never for one that failed.
pub fn run_result<F: Fn(String)>(capture: Capture, on_line: &mut LineCallback<F>) -> (result:
    Result<String, ExecutionError>)
    ensures
        (match capture {
            Capture::NotStarted(reason) => result matches Err(ExecutionError::Spawn(text)) && text@
                == reason@,
            Capture::NoStdout => result == Err::<String, ExecutionError>(ExecutionError::NoStdout),
            Capture::Stdout(reads) => result matches Ok(out) && out@ == joined(
                decoded(reads.deep_view()),
            ),
        }),
        final(on_line).handler() == old(on_line).handler(),
        capture matches Capture::Stdout(reads) ==> forall|i: int|
            0 <= i < reads.len() ==> (#[trigger] reads[i] matches Some(line) ==> old(
                on_line,
            ).returned_from(line)),
        final(on_line).calls() == (match capture {
            Capture::Stdout(reads) => old(on_line).calls_after(decoded(reads.deep_view())),
            _ => old(on_line).calls(),
        }),
{
    match capture {
        Capture::NotStarted(reason) => Err(ExecutionError::Spawn(reason)),
        Capture::NoStdout => Err(ExecutionError::NoStdout),
        Capture::Stdout(reads) => Ok(collect_output(reads, on_line)),
    }
}

} // verus!
