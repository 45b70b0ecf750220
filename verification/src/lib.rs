//! Orchestration of a staged STARK proof pipeline.
//!
//! The crate decides *what* is run and *how each result is judged*: the
//! artifact layout under an output directory, the command line of every
//! external tool, the order of the stages with the single recovery branch,
//! and the verdict on the verifier's output.  It launches nothing itself.
//! [`generate_proof`] and [`verify_proof`] are handed a
//! [`launcher::Launcher`], which runs one command through a function of the
//! caller, reports what happened and keeps a record of the call; whoever
//! prefers to drive the run step by step uses [`pipeline::Pipeline`]
//! directly.

pub mod status;
pub mod error;
pub mod path;
pub mod text;
pub mod layout;
pub mod command;
pub mod config;
pub mod stage;
pub mod launcher;
pub mod pipeline;
pub mod run;
pub mod verification;

pub use crate::error::Error;
pub use crate::layout::OutputFiles;
pub use crate::run::generate_proof;
pub use crate::verification::verify_proof;
