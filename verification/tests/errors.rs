use std::io;

use pil_stark_prover::error::Error;
use pil_stark_prover::pipeline::Phase;
use pil_stark_prover::stage::{Outcome, Stage};
use pil_stark_prover::status::ExitStatus;

const STAGES: [Stage; 7] = [
    Stage::NpmInstall,
    Stage::ConstTreeGen,
    Stage::StarkInfoGen,
    Stage::CHelpersGen,
    Stage::CHelpersCompile,
    Stage::ProofGen,
    Stage::ProofVerify,
];

#[test]
fn exit_code_zero_is_the_only_success() {
    assert!(ExitStatus::from_code(0).success());
    assert!(!ExitStatus::from_code(1).success());
    assert!(!ExitStatus::from_code(-1).success());
    assert!(!ExitStatus::from_code(255).success());
    assert!(!ExitStatus::from_code(i32::MIN).success());
    assert!(!ExitStatus::terminated().success());
}

#[test]
fn signal_is_kept_and_decides_nothing() {
    let killed = ExitStatus::from_signal(9);
    assert_eq!(killed, ExitStatus { code: None, signal: Some(9) });
    assert_eq!(killed.signal(), Some(9));
    assert_eq!(killed.code(), None);
    assert!(!killed.success());
    assert_eq!(ExitStatus::from_code(0).signal(), None);
    assert!(ExitStatus { code: Some(0), signal: Some(15) }.success());
    let error = Stage::ProofGen.conclude(Outcome::Exited(killed)).unwrap_err();
    assert_eq!(error.exit_status(), Some(killed));
}

#[test]
fn exit_status_reports_its_code() {
    assert_eq!(ExitStatus::from_code(3).code(), Some(3));
    assert_eq!(ExitStatus::from_code(0), ExitStatus { code: Some(0), signal: None });
    assert_eq!(ExitStatus::terminated().code(), None);
    assert_eq!(ExitStatus::terminated(), ExitStatus { code: None, signal: None });
}

#[test]
fn every_stage_has_its_own_error() {
    let status = ExitStatus::from_code(2);
    assert!(matches!(Stage::NpmInstall.error(status), Error::NpmInstall(s) if s == status));
    assert!(matches!(Stage::ConstTreeGen.error(status), Error::ConstTreeGen(s) if s == status));
    assert!(matches!(Stage::StarkInfoGen.error(status), Error::StarkInfoGen(s) if s == status));
    assert!(matches!(Stage::CHelpersGen.error(status), Error::CHelpersGen(s) if s == status));
    assert!(matches!(Stage::CHelpersCompile.error(status), Error::CHelpersCompile(s) if s == status));
    assert!(matches!(Stage::ProofGen.error(status), Error::ProofGen(s) if s == status));
    assert!(matches!(Stage::ProofVerify.error(status), Error::ProofVerify(s) if s == status));
}

#[test]
fn successful_process_is_accepted_by_every_stage() {
    for stage in STAGES {
        assert!(stage.conclude(Outcome::Exited(ExitStatus::from_code(0))).is_ok());
    }
}

#[test]
fn failed_process_is_the_error_of_its_stage() {
    for stage in STAGES {
        let status = ExitStatus::from_code(42);
        let error = stage.conclude(Outcome::Exited(status)).unwrap_err();
        assert_eq!(error.exit_status(), Some(status));
        assert_eq!(error.message(), stage.error(status).message());
    }
    assert!(matches!(
        Stage::ProofGen.conclude(Outcome::Exited(ExitStatus::from_code(1))),
        Err(Error::ProofGen(s)) if s.code == Some(1)
    ));
}

#[test]
fn terminated_process_is_the_error_of_its_stage() {
    for stage in STAGES {
        let error = stage.conclude(Outcome::Exited(ExitStatus::terminated())).unwrap_err();
        assert_eq!(error.exit_status(), Some(ExitStatus::terminated()));
    }
}

#[test]
fn refused_launch_is_an_io_error_at_every_stage() {
    for stage in STAGES {
        let refusal = io::Error::new(io::ErrorKind::PermissionDenied, "not allowed");
        let error = stage.conclude(Outcome::Failed(refusal)).unwrap_err();
        assert!(matches!(&error, Error::IO(e) if e.kind() == io::ErrorKind::PermissionDenied));
        assert_eq!(error.exit_status(), None);
    }
}

#[test]
fn error_messages() {
    let status = ExitStatus::from_code(1);
    let io_error = Error::IO(io::Error::new(io::ErrorKind::Other, "disk"));
    assert_eq!(io_error.message(), "input/output error");
    assert_eq!(Error::NpmInstall(status).message(), "npm install error");
    assert_eq!(Error::ConstTreeGen(status).message(), "consttree generation error");
    assert_eq!(Error::StarkInfoGen(status).message(), "stark info generation error");
    assert_eq!(Error::CHelpersGen(status).message(), "C helpers generation error");
    assert_eq!(Error::CHelpersCompile(status).message(), "C helpers compilation error");
    assert_eq!(Error::ProofGen(status).message(), "proof generation error");
    assert_eq!(Error::ProofVerify(status).message(), "proof verification error");
}

#[test]
fn stage_errors_carry_the_exit_status() {
    let status = ExitStatus::from_code(9);
    assert_eq!(Error::NpmInstall(status).exit_status(), Some(status));
    assert_eq!(Error::ConstTreeGen(status).exit_status(), Some(status));
    assert_eq!(Error::StarkInfoGen(status).exit_status(), Some(status));
    assert_eq!(Error::CHelpersGen(status).exit_status(), Some(status));
    assert_eq!(Error::CHelpersCompile(status).exit_status(), Some(status));
    assert_eq!(Error::ProofGen(status).exit_status(), Some(status));
    assert_eq!(Error::ProofVerify(status).exit_status(), Some(status));
    assert_eq!(Error::IO(io::Error::new(io::ErrorKind::Other, "x")).exit_status(), None);
}

#[test]
fn io_error_converts_into_the_io_kind() {
    let error = Error::from(io::Error::new(io::ErrorKind::BrokenPipe, "pipe"));
    assert!(matches!(error, Error::IO(e) if e.kind() == io::ErrorKind::BrokenPipe));
}

#[test]
fn phases_belong_to_stages() {
    assert_eq!(Phase::ConstTree.stage_of(), Stage::ConstTreeGen);
    assert_eq!(Phase::InstallDependencies.stage_of(), Stage::NpmInstall);
    assert_eq!(Phase::ConstTreeRetry.stage_of(), Stage::ConstTreeGen);
    assert_eq!(Phase::StarkInfo.stage_of(), Stage::StarkInfoGen);
    assert_eq!(Phase::CHelpersGen.stage_of(), Stage::CHelpersGen);
    assert_eq!(Phase::CHelpersCompile.stage_of(), Stage::CHelpersCompile);
    assert_eq!(Phase::Proof.stage_of(), Stage::ProofGen);
}
