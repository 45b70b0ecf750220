use std::cell::RefCell;
use std::collections::{BTreeSet, VecDeque};
use std::io;

use pil_stark_prover::command::Invocation;
use pil_stark_prover::config::Toolchain;
use pil_stark_prover::launcher::Launcher;
use pil_stark_prover::stage::Outcome;
use pil_stark_prover::status::ExitStatus;
use pil_stark_prover::{generate_proof, verify_proof, Error, OutputFiles};

fn ok() -> Outcome {
    Outcome::Exited(ExitStatus::from_code(0))
}

fn exit(code: i32) -> Outcome {
    Outcome::Exited(ExitStatus::from_code(code))
}

fn refused() -> Outcome {
    Outcome::Failed(io::Error::new(io::ErrorKind::NotFound, "no such program"))
}

/// Runs the generation against a launcher that answers from a script and
/// records every command it was asked to launch.
fn generate_with(
    output_dir: &str,
    script: Vec<Outcome>,
) -> (Vec<Invocation>, Result<OutputFiles, Error>) {
    let script = RefCell::new(VecDeque::from(script));
    let launched = RefCell::new(Vec::new());
    let mut launcher = Launcher::new(|command: Invocation| {
        launched.borrow_mut().push(command);
        script.borrow_mut().pop_front().expect("a command was launched after the script ended")
    });
    let result = generate_proof(
        &Toolchain::new("/deps"),
        "test-data/constraints.json",
        "test-data/starkstruct.json",
        "test-data/constants.bin",
        "test-data/commits.bin",
        output_dir,
        &mut launcher,
    );
    assert!(script.borrow().is_empty(), "the run ended before the script did");
    (launched.into_inner(), result)
}

fn verify_with(outcome: Outcome, last_line: &str) -> (Vec<Invocation>, Result<(), Error>) {
    let answer = RefCell::new(Some((outcome, last_line.to_string())));
    let launched = RefCell::new(Vec::new());
    let mut launcher = Launcher::new(|command: Invocation| {
        launched.borrow_mut().push(command);
        answer.borrow_mut().take().expect("the verifier was launched twice")
    });
    let result = verify_proof(
        &Toolchain::new("/deps"),
        "out/verification_key.json",
        "out/starkinfo.json",
        "out/runtime/output/jProof.json",
        "test-data/publics.json",
        &mut launcher,
    );
    (launched.into_inner(), result)
}

fn programs(launched: &[Invocation]) -> Vec<String> {
    launched
        .iter()
        .map(|c| {
            if c.program == "node" {
                c.args[1].rsplit('/').next().unwrap().to_string()
            } else {
                c.program.rsplit('/').next().unwrap().to_string()
            }
        })
        .collect()
}

fn argument_after<'a>(command: &'a Invocation, flag: &str) -> &'a str {
    let at = command.args.iter().position(|a| a == flag).unwrap();
    &command.args[at + 1]
}

fn parent_of(path: &str) -> &str {
    match path.rfind('/') {
        Some(0) => "/",
        Some(at) => &path[..at],
        None => "",
    }
}

/// A disk of which only the names are kept.  The current directory, the
/// root, the temporary directory and the test data exist from the start.
fn empty_disk() -> RefCell<BTreeSet<String>> {
    let mut disk = BTreeSet::new();
    for present in ["", "/", "/tmp", "test-data"] {
        disk.insert(present.to_string());
    }
    RefCell::new(disk)
}

fn create_dir_all(disk: &mut BTreeSet<String>, dir: &str) {
    let mut dir = dir.trim_end_matches('/');
    while !disk.contains(dir) {
        disk.insert(dir.to_string());
        dir = parent_of(dir);
    }
}

/// Writes a file, which takes a directory to write it into.
fn write(disk: &mut BTreeSet<String>, path: &str) -> bool {
    let writable = disk.contains(parent_of(path));
    if writable {
        disk.insert(path.to_string());
    }
    writable
}

/// Stands in for the external tools: a command succeeds where the directory
/// it writes into exists, and leaves behind the files that the real tool
/// would write.
fn simulate_tool(disk: &RefCell<BTreeSet<String>>, command: &Invocation) -> Outcome {
    let mut disk = disk.borrow_mut();
    if let Some(dir) = &command.required_dir {
        create_dir_all(&mut disk, dir);
    }
    let tool = programs(std::slice::from_ref(command)).remove(0);
    let written = match tool.as_str() {
        "main_buildconsttree.js" => {
            write(&mut disk, argument_after(command, "-t"))
                && write(&mut disk, argument_after(command, "-v"))
        }
        "main_genstarkinfo.js" => write(&mut disk, argument_after(command, "-i")),
        "main_buildchelpers.js" => {
            write(&mut disk, argument_after(command, "-c"))
                && write(&mut disk, argument_after(command, "-b"))
        }
        "g++" => write(&mut disk, argument_after(command, "-o")),
        "zkProverTest" => {
            for input in &command.args {
                assert!(
                    input.starts_with("test-data/") || disk.contains(input),
                    "the prover was given {:?}, which nothing has written",
                    input
                );
            }
            let cwd = command.working_dir.as_ref().unwrap();
            write(&mut disk, &format!("{}/runtime/output/jProof.json", cwd))
        }
        "npm" => true,
        other => panic!("unexpected tool {:?}", other),
    };
    if written {
        ok()
    } else {
        exit(1)
    }
}

fn prove_and_verify(output_dir: &str) {
    let disk = empty_disk();
    let mut tools = Launcher::new(|command: Invocation| simulate_tool(&disk, &command));
    let output_files = generate_proof(
        &Toolchain::new("/deps"),
        "test-data/constraints.json",
        "test-data/starkstruct.json",
        "test-data/constants.bin",
        "test-data/commits.bin",
        output_dir,
        &mut tools,
    )
    .expect("proof generation failed");

    assert!(disk.borrow().contains(&output_files.verification_key_json));
    assert!(disk.borrow().contains(&output_files.proof_json));

    let mut verifier = Launcher::new(|command: Invocation| {
        for flag in ["-v", "-s", "-o"] {
            assert!(disk.borrow().contains(argument_after(&command, flag)));
        }
        (ok(), "Verification Ok!!".to_string())
    });
    verify_proof(
        &Toolchain::new("/deps"),
        &output_files.verification_key_json,
        &output_files.starkinfo_json,
        &output_files.proof_json,
        "test-data/publics.json",
        &mut verifier,
    )
    .expect("proof verification failed");
}

#[test]
fn prove_and_verify_absolute() {
    prove_and_verify("/tmp/pil-stark-prover.kZ3x");
}

#[test]
fn prove_and_verify_relative() {
    prove_and_verify("pil-stark-prover.kZ3x");
}

#[test]
fn generation_launches_the_five_stages_in_order() {
    let (launched, result) = generate_with("out", vec![ok(), ok(), ok(), ok(), ok()]);
    assert_eq!(
        programs(&launched),
        vec![
            "main_buildconsttree.js",
            "main_genstarkinfo.js",
            "main_buildchelpers.js",
            "g++",
            "zkProverTest",
        ]
    );
    assert_eq!(
        result.unwrap(),
        OutputFiles {
            verification_key_json: "out/verification_key.json".to_string(),
            starkinfo_json: "out/starkinfo.json".to_string(),
            proof_json: "out/runtime/output/jProof.json".to_string(),
        }
    );
}

#[test]
fn generation_passes_the_inputs_to_the_first_stage() {
    let (launched, _) = generate_with("out", vec![refused()]);
    assert_eq!(launched.len(), 1);
    assert_eq!(argument_after(&launched[0], "-c"), "test-data/constants.bin");
    assert_eq!(argument_after(&launched[0], "-j"), "test-data/constraints.json");
    assert_eq!(argument_after(&launched[0], "-s"), "test-data/starkstruct.json");
    assert_eq!(argument_after(&launched[0], "-t"), "out/consttree.bin");
    assert_eq!(argument_after(&launched[0], "-v"), "out/verification_key.json");
}

#[test]
fn generation_recovers_once_from_a_failed_first_stage() {
    let (launched, result) =
        generate_with("out", vec![exit(1), ok(), ok(), ok(), ok(), ok(), ok()]);
    assert_eq!(
        programs(&launched),
        vec![
            "main_buildconsttree.js",
            "npm",
            "main_buildconsttree.js",
            "main_genstarkinfo.js",
            "main_buildchelpers.js",
            "g++",
            "zkProverTest",
        ]
    );
    assert_eq!(launched[0], launched[2]);
    assert_eq!(launched[1].working_dir.as_deref(), Some("/deps/pil-stark"));
    assert!(result.is_ok());
}

#[test]
fn generation_reports_a_second_failure_of_the_first_stage() {
    let (launched, result) = generate_with("out", vec![exit(1), ok(), exit(1)]);
    assert_eq!(
        programs(&launched),
        vec!["main_buildconsttree.js", "npm", "main_buildconsttree.js"]
    );
    assert!(matches!(result, Err(Error::ConstTreeGen(s)) if s.code == Some(1)));
}

#[test]
fn generation_reports_a_failed_installation() {
    let (launched, result) = generate_with("out", vec![exit(1), exit(243)]);
    assert_eq!(programs(&launched), vec!["main_buildconsttree.js", "npm"]);
    assert!(matches!(result, Err(Error::NpmInstall(s)) if s.code == Some(243)));
}

#[test]
fn generation_stops_at_the_stage_that_fails() {
    let stages = ["main_genstarkinfo.js", "main_buildchelpers.js", "g++", "zkProverTest"];
    for (index, stage) in stages.iter().enumerate() {
        let mut script = vec![ok()];
        for _ in 0..index {
            script.push(ok());
        }
        script.push(exit(70 + index as i32));
        let (launched, result) = generate_with("out", script);
        assert_eq!(launched.len(), index + 2);
        assert_eq!(programs(&launched).last().unwrap(), stage);
        let error = result.unwrap_err();
        assert_eq!(error.exit_status(), Some(ExitStatus::from_code(70 + index as i32)));
        let expected = [
            "stark info generation error",
            "C helpers generation error",
            "C helpers compilation error",
            "proof generation error",
        ];
        assert_eq!(error.message(), expected[index]);
    }
}

#[test]
fn generation_stops_when_a_launch_is_refused() {
    for refused_at in 0..5 {
        let mut script = Vec::new();
        for _ in 0..refused_at {
            script.push(ok());
        }
        script.push(refused());
        let (launched, result) = generate_with("out", script);
        assert_eq!(launched.len(), refused_at + 1);
        assert!(matches!(result, Err(Error::IO(e)) if e.kind() == io::ErrorKind::NotFound));
    }
}

#[test]
fn generation_asks_for_each_directory_before_the_stage_that_writes_into_it() {
    let (launched, _) = generate_with("work/out", vec![ok(), ok(), ok(), ok(), ok()]);
    assert_eq!(launched[0].required_dir.as_deref(), Some("work/out"));
    for command in &launched[1..4] {
        assert_eq!(command.required_dir, None);
    }
    assert_eq!(launched[4].required_dir.as_deref(), Some("work/out/runtime/output"));
    assert_eq!(launched[4].working_dir.as_deref(), Some("work/out"));
    assert!(launched[4].canonicalize_args);
}

#[test]
fn generation_succeeds_in_an_output_directory_that_does_not_exist_yet() {
    for output_dir in ["/tmp/missing/deeper/out", "missing/out", "out"] {
        let disk = empty_disk();
        let launched = RefCell::new(Vec::new());
        let mut tools = Launcher::new(|command: Invocation| {
            launched.borrow_mut().push(command.program.clone());
            simulate_tool(&disk, &command)
        });
        let files = generate_proof(
            &Toolchain::new("/deps"),
            "test-data/constraints.json",
            "test-data/starkstruct.json",
            "test-data/constants.bin",
            "test-data/commits.bin",
            output_dir,
            &mut tools,
        )
        .expect("proof generation failed");
        assert_eq!(launched.borrow().len(), 5, "nothing had to be recovered");
        assert!(!launched.borrow().iter().any(|program| program == "npm"));
        assert!(disk.borrow().contains(output_dir));
        assert!(disk.borrow().contains(&format!("{}/runtime/output", output_dir)));
        assert!(disk.borrow().contains(&files.proof_json));
    }
}

#[test]
fn generation_creates_nothing_but_the_two_directories() {
    let disk = empty_disk();
    let created = RefCell::new(Vec::new());
    let mut tools = Launcher::new(|command: Invocation| {
        if let Some(dir) = &command.required_dir {
            created.borrow_mut().push(dir.clone());
        }
        simulate_tool(&disk, &command)
    });
    generate_proof(
        &Toolchain::new("/deps"),
        "test-data/constraints.json",
        "test-data/starkstruct.json",
        "test-data/constants.bin",
        "test-data/commits.bin",
        "fresh/out",
        &mut tools,
    )
    .expect("proof generation failed");
    assert_eq!(created.into_inner(), vec!["fresh/out", "fresh/out/runtime/output"]);
}

#[test]
fn generation_reports_an_output_directory_that_cannot_be_created() {
    let (launched, result) = generate_with(
        "/proc/forbidden/out",
        vec![Outcome::Failed(io::Error::new(io::ErrorKind::PermissionDenied, "mkdir"))],
    );
    assert_eq!(launched.len(), 1);
    assert_eq!(launched[0].required_dir.as_deref(), Some("/proc/forbidden/out"));
    assert!(matches!(result, Err(Error::IO(e)) if e.kind() == io::ErrorKind::PermissionDenied));
}

#[test]
fn generation_reports_a_proof_directory_that_cannot_be_created() {
    let (launched, result) = generate_with(
        "out",
        vec![
            ok(),
            ok(),
            ok(),
            ok(),
            Outcome::Failed(io::Error::new(io::ErrorKind::PermissionDenied, "mkdir")),
        ],
    );
    assert_eq!(launched.len(), 5);
    assert!(matches!(result, Err(Error::IO(e)) if e.kind() == io::ErrorKind::PermissionDenied));
}

#[test]
fn generation_launches_every_command_once() {
    let counted = RefCell::new(0usize);
    let mut launcher = Launcher::new(|_command: Invocation| {
        *counted.borrow_mut() += 1;
        ok()
    });
    let result = generate_proof(
        &Toolchain::new("/deps"),
        "test-data/constraints.json",
        "test-data/starkstruct.json",
        "test-data/constants.bin",
        "test-data/commits.bin",
        "out",
        &mut launcher,
    );
    assert!(result.is_ok());
    assert_eq!(*counted.borrow(), 5);
}

#[test]
fn launcher_hands_the_command_over_once_and_returns_the_answer() {
    let seen = RefCell::new(Vec::new());
    let mut launcher = Launcher::new(|command: Invocation| {
        seen.borrow_mut().push(command.command_line());
        command.args.len()
    });
    assert_eq!(launcher.launch(Invocation::new("a").arg("x").arg("y")), 2);
    assert_eq!(launcher.launch(Invocation::new("b")), 0);
    assert_eq!(seen.into_inner(), vec!["\u{2192} a x y", "\u{2192} b "]);
}

#[test]
fn verification_launches_the_verifier_once() {
    let (launched, result) = verify_with(ok(), "Verification Ok!!");
    assert!(result.is_ok());
    assert_eq!(launched.len(), 1);
    assert_eq!(programs(&launched), vec!["main_verifier.js"]);
    assert!(launched[0].capture_output);
    assert_eq!(argument_after(&launched[0], "-v"), "out/verification_key.json");
    assert_eq!(argument_after(&launched[0], "-s"), "out/starkinfo.json");
    assert_eq!(argument_after(&launched[0], "-o"), "out/runtime/output/jProof.json");
    assert_eq!(argument_after(&launched[0], "-b"), "test-data/publics.json");
}

#[test]
fn verification_fails_closed() {
    for line in ["", "Verification Ok!", "Verification Ok!!!", "verification ok!!", "ok"] {
        let (_, result) = verify_with(ok(), line);
        assert!(matches!(result, Err(Error::ProofVerify(s)) if s.code == Some(0)));
    }
}

#[test]
fn verification_needs_a_successful_exit() {
    let (_, result) = verify_with(exit(1), "Verification Ok!!");
    assert!(matches!(result, Err(Error::ProofVerify(s)) if s.code == Some(1)));
}

#[test]
fn verification_reports_a_refused_launch() {
    let (_, result) = verify_with(refused(), "");
    assert!(matches!(result, Err(Error::IO(e)) if e.kind() == io::ErrorKind::NotFound));
}
