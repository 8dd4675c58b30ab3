//! How a run can fail.

use vstd::prelude::*;

verus! {

/// Why a run gave no output at all. A script that started and printed is a
/// success, however it ended.
#[derive(Debug, PartialEq, Eq)]
pub enum ExecutionError {
    /// The script could not be started: its file could not be had, or the
    /// interpreter could not be launched. The text is the operating system's
    /// account of why.
    Spawn(String),
    /// The interpreter started, but its standard output could not be had.
    NoStdout,
}

impl ExecutionError {
    /// The words that describe the failure.
    pub open spec fn message_text(&self) -> Seq<char> {
        match self {
            ExecutionError::Spawn(reason) => reason@,
            ExecutionError::NoStdout => "Could not capture standard output."@,
        }
    }

    /// The failure in words.
    pub fn message(&self) -> (text: String)
        ensures
            text@ == self.message_text(),
    {
        match self {
            ExecutionError::Spawn(reason) => reason.clone(),
            ExecutionError::NoStdout => String::from_str("Could not capture standard output."),
        }
    }
}

} // verus!
