//! The external stages and how the outcome of one launch is judged.

use vstd::prelude::*;
use crate::error::Error;
use crate::status::ExitStatus;

verus! {

/// The kinds of external work, one per kind of stage error.
#[derive(Clone, Copy, Debug, PartialEq, Eq, Structural)]
pub enum Stage {
    /// Installing the dependencies of the constraint tool.
    NpmInstall,
    /// Building the constant tree and the verification key.
    ConstTreeGen,
    /// Deriving the stark-info document.
    StarkInfoGen,
    /// Generating the helper sources and the helper binary blob.
    CHelpersGen,
    /// Compiling the helper sources into a shared library.
    CHelpersCompile,
    /// Running the prover.
    ProofGen,
    /// Running the verifier.
    ProofVerify,
}

/// What the launcher observed of one command.
#[derive(Debug)]
pub enum Outcome {
    /// The process ran and ended with this status.
    Exited(ExitStatus),
    /// The operating system refused: the process could not be launched or
    /// waited for, or a directory it needs could not be created.
    Failed(std::io::Error),
}

impl Stage {
    /// The error that reports a failed process of this stage.
    pub open spec fn failure(self, status: ExitStatus) -> Error {
        match self {
            Stage::NpmInstall => Error::NpmInstall(status),
            Stage::ConstTreeGen => Error::ConstTreeGen(status),
            Stage::StarkInfoGen => Error::StarkInfoGen(status),
            Stage::CHelpersGen => Error::CHelpersGen(status),
            Stage::CHelpersCompile => Error::CHelpersCompile(status),
            Stage::ProofGen => Error::ProofGen(status),
            Stage::ProofVerify => Error::ProofVerify(status),
        }
    }

    /// The judgement on one launch: a process that ended successfully is
    /// accepted, any other ending is this stage's error with the status, and a
    /// refusal of the operating system is an I/O error.
    pub open spec fn judged(self, outcome: Outcome) -> Result<(), Error> {
        match outcome {
            Outcome::Exited(status) => if status.is_success() {
                Ok(())
            } else {
                Err(self.failure(status))
            },
            Outcome::Failed(error) => Err(Error::IO(error)),
        }
    }

    /// The error that reports a failed process of this stage.
    pub fn error(self, status: ExitStatus) -> (error: Error)
        ensures
            error == self.failure(status),
    {
        match self {
            Stage::NpmInstall => Error::NpmInstall(status),
            Stage::ConstTreeGen => Error::ConstTreeGen(status),
            Stage::StarkInfoGen => Error::StarkInfoGen(status),
            Stage::CHelpersGen => Error::CHelpersGen(status),
            Stage::CHelpersCompile => Error::CHelpersCompile(status),
            Stage::ProofGen => Error::ProofGen(status),
            Stage::ProofVerify => Error::ProofVerify(status),
        }
    }

    /// Judges the outcome of one launch of this stage.
    pub fn conclude(self, outcome: Outcome) -> (result: Result<(), Error>)
        ensures
            result == self.judged(outcome),
    {
        match outcome {
            Outcome::Exited(status) => {
                if status.success() {
                    Ok(())
                } else {
                    Err(self.error(status))
                }
            },
            Outcome::Failed(error) => Err(Error::IO(error)),
        }
    }
}

/// A stage error names its stage and carries the status it was made from, so
/// different stages never report the same error.
pub proof fn lemma_failure_identifies_stage(a: Stage, b: Stage, s: ExitStatus, t: ExitStatus)
    ensures
        a.failure(s).status() == Some(s),
        a.failure(s) == b.failure(t) <==> a == b && s == t,
{
}

} // verus!
