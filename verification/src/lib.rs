//! Runs helper scripts for a desktop shell and gathers what they print.
//!
//! The crate holds the decisions of a script run: which interpreter is
//! started and with which arguments, which lines of its standard output are
//! kept, when the per-line callback is called, how the kept lines become the
//! result, and how a failure is put into words for the caller. Starting the
//! process and reading its pipe is left to the program that links the crate.

pub mod accumulator;
pub mod callback;
pub mod command;
pub mod error;
pub mod invocation;
pub mod lines;
pub mod runner;
