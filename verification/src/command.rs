//! The one operation that the shell's front end can call, without the
//! process in the middle: the request it makes and the answer it gives.

use vstd::prelude::*;
use crate::error::ExecutionError;
use crate::invocation::{Invocation, InvocationView};

verus! {

/// The answer to the front end for a run that failed with `message`.
pub open spec fn failure_reply(message: Seq<char>) -> Seq<char> {
    "Failed to run Ruby script: "@ + message
}

/// The request behind the operation: the example script, with the caller's
/// one argument.
pub fn example_invocation(example_arg: &str) -> (invocation: Invocation)
    ensures
        invocation@ == (InvocationView { script: "example_script"@, args: seq![example_arg@] }),
{
    let args = [example_arg];
    let invocation = Invocation::new("example_script", &args);
    assert(invocation@.args =~= seq![example_arg@]);
    invocation
}

/// The answer to the front end: the output of a run that succeeded, as it
/// is, or the failure of one that did not, in words.
pub fn command_reply(outcome: Result<String, ExecutionError>) -> (reply: Result<String, String>)
    ensures
        (match outcome {
            Ok(output) => reply matches Ok(text) && text@ == output@,
            Err(error) => reply matches Err(text) && text@ == failure_reply(error.message_text()),
        }),
{
    match outcome {
        Ok(output) => Ok(output),
        Err(error) => {
            let mut text = String::from_str("Failed to run Ruby script: ");
            text.append(error.message().as_str());
            Err(text)
        },
    }
}

} // verus!
