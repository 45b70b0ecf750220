//! Exit status of a finished external process.

use vstd::prelude::*;

verus! {

/// How an external process ended.
///
/// `code` is the exit code the process returned, or `None` when the process
/// ended without returning one.  `signal` is the number of the signal that
/// terminated the process, where the platform tells; it is kept for
/// diagnosis and has no part in any decision.
#[derive(Clone, Copy, Debug, PartialEq, Eq, Structural)]
pub struct ExitStatus {
    pub code: Option<i32>,
    pub signal: Option<i32>,
}

impl ExitStatus {
    /// A termination counts as successful exactly when the process returned
    /// the exit code zero.
    pub open spec fn is_success(self) -> bool {
        self.code == Some(0i32)
    }

    /// Status of a process that returned `code`.
    pub fn from_code(code: i32) -> (status: ExitStatus)
        ensures
            status == (ExitStatus { code: Some(code), signal: None }),
    {
        ExitStatus { code: Some(code), signal: None }
    }

    /// Status of a process that was terminated by the signal `signal`.
    pub fn from_signal(signal: i32) -> (status: ExitStatus)
        ensures
            status == (ExitStatus { code: None, signal: Some(signal) }),
    {
        ExitStatus { code: None, signal: Some(signal) }
    }

    /// Status of a process that ended without an exit code, for a reason
    /// that is not known.
    pub fn terminated() -> (status: ExitStatus)
        ensures
            status == (ExitStatus { code: None, signal: None }),
    {
        ExitStatus { code: None, signal: None }
    }

    /// Whether the process ended successfully.
    pub fn success(&self) -> (ok: bool)
        ensures
            ok == self.is_success(),
    {
        match self.code {
            Some(code) => code == 0,
            None => false,
        }
    }

    /// The exit code, if the process returned one.
    pub fn code(&self) -> (code: Option<i32>)
        ensures
            code == self.code,
    {
        self.code
    }

    /// The signal that terminated the process, if one is known to have.
    pub fn signal(&self) -> (signal: Option<i32>)
        ensures
            signal == self.signal,
    {
        self.signal
    }
}

} // verus!
