//! The closed set of failures a pipeline run can end with.

use vstd::prelude::*;
use vstd::std_specs::convert::FromSpecImpl;
use crate::status::ExitStatus;

verus! {

/// `std::io::Error` is carried through unchanged; nothing is known about its
/// contents.
#[verifier::external_type_specification]
#[verifier::external_body]
pub struct ExIoError(std::io::Error);

/// Why a pipeline run or a verification failed.
///
/// There is one kind per external stage, each carrying the exit status of the
/// process that failed, and one kind for failures of the operating system
/// (a process that could not be launched, a directory that could not be
/// created).
#[derive(Debug)]
pub enum Error {
    IO(std::io::Error),
    NpmInstall(ExitStatus),
    ConstTreeGen(ExitStatus),
    StarkInfoGen(ExitStatus),
    CHelpersGen(ExitStatus),
    CHelpersCompile(ExitStatus),
    ProofGen(ExitStatus),
    ProofVerify(ExitStatus),
}

impl From<std::io::Error> for Error {
    /// A failure of the operating system is reported as an I/O error.
    fn from(error: std::io::Error) -> (result: Error) {
        Error::IO(error)
    }
}

impl FromSpecImpl<std::io::Error> for Error {
    open spec fn obeys_from_spec() -> bool {
        true
    }

    open spec fn from_spec(error: std::io::Error) -> Error {
        Error::IO(error)
    }
}

impl Error {
    /// The exit status carried by a stage error; an I/O error carries none.
    pub open spec fn status(self) -> Option<ExitStatus> {
        match self {
            Error::IO(_) => None,
            Error::NpmInstall(s) => Some(s),
            Error::ConstTreeGen(s) => Some(s),
            Error::StarkInfoGen(s) => Some(s),
            Error::CHelpersGen(s) => Some(s),
            Error::CHelpersCompile(s) => Some(s),
            Error::ProofGen(s) => Some(s),
            Error::ProofVerify(s) => Some(s),
        }
    }

    /// The human-readable description of each kind.
    pub open spec fn description(self) -> Seq<char> {
        match self {
            Error::IO(_) => "input/output error"@,
            Error::NpmInstall(_) => "npm install error"@,
            Error::ConstTreeGen(_) => "consttree generation error"@,
            Error::StarkInfoGen(_) => "stark info generation error"@,
            Error::CHelpersGen(_) => "C helpers generation error"@,
            Error::CHelpersCompile(_) => "C helpers compilation error"@,
            Error::ProofGen(_) => "proof generation error"@,
            Error::ProofVerify(_) => "proof verification error"@,
        }
    }

    /// Exit status of the process whose failure this error reports.
    pub fn exit_status(&self) -> (status: Option<ExitStatus>)
        ensures
            status == self.status(),
    {
        match self {
            Error::IO(_) => None,
            Error::NpmInstall(s) => Some(*s),
            Error::ConstTreeGen(s) => Some(*s),
            Error::StarkInfoGen(s) => Some(*s),
            Error::CHelpersGen(s) => Some(*s),
            Error::CHelpersCompile(s) => Some(*s),
            Error::ProofGen(s) => Some(*s),
            Error::ProofVerify(s) => Some(*s),
        }
    }

    /// Text shown to a user for this error.
    pub fn message(&self) -> (text: &'static str)
        ensures
            text@ == self.description(),
    {
        match self {
            Error::IO(_) => "input/output error",
            Error::NpmInstall(_) => "npm install error",
            Error::ConstTreeGen(_) => "consttree generation error",
            Error::StarkInfoGen(_) => "stark info generation error",
            Error::CHelpersGen(_) => "C helpers generation error",
            Error::CHelpersCompile(_) => "C helpers compilation error",
            Error::ProofGen(_) => "proof generation error",
            Error::ProofVerify(_) => "proof verification error",
        }
    }
}

} // verus!
