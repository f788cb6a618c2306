//! Invocations of external programs, and what is made of their outcome.

use vstd::prelude::*;
use crate::text::views;

verus! {

/// One invocation of an external program: the program and its arguments.
#[derive(Debug, Clone, PartialEq, Eq)]
pub struct Invocation {
    pub program: String,
    pub args: Vec<String>,
}

/// The mathematical content of an [`Invocation`].
pub ghost struct InvocationView {
    pub program: Seq<char>,
    pub args: Seq<Seq<char>>,
}

impl View for Invocation {
    type V = InvocationView;

    open spec fn view(&self) -> InvocationView {
        InvocationView { program: self.program@, args: views(self.args@) }
    }
}

/// What a driver saw of one invocation.
#[derive(Debug, Clone, Copy, PartialEq, Eq, Structural)]
pub enum Status {
    /// The program could not be found or started.
    NotStarted,
    /// The program ran and exited with this code.
    Exited(i32),
    /// The program ran and ended without an exit code.
    Killed,
}

/// Why an invocation counts as failed.
#[derive(Debug, Clone, Copy, PartialEq, Eq, Structural)]
pub enum RunError {
    /// The program could not be found or started.
    Launch,
    /// The program ran and reported failure, with this exit code if it gave one.
    Exit(Option<i32>),
}

/// An invocation succeeds exactly when the program ran and exited with code
/// zero. A program that did not start is reported as such, never as an exit.
pub open spec fn verdict(status: Status) -> Result<(), RunError> {
    match status {
        Status::NotStarted => Err(RunError::Launch),
        Status::Exited(code) => if code == 0 {
            Ok(())
        } else {
            Err(RunError::Exit(Some(code)))
        },
        Status::Killed => Err(RunError::Exit(None)),
    }
}

/// Judges one invocation by what the driver saw of it.
pub fn check(status: Status) -> (result: Result<(), RunError>)
    ensures
        result == verdict(status),
{
    match status {
        Status::NotStarted => Err(RunError::Launch),
        Status::Exited(code) => if code == 0 {
            Ok(())
        } else {
            Err(RunError::Exit(Some(code)))
        },
        Status::Killed => Err(RunError::Exit(None)),
    }
}

} // verus!
