//! The verification stage: its command, the capture of the verifier's last
//! output line, and the verdict.

use vstd::prelude::*;
use vstd::string::*;
use crate::command::{node_command, node_invocation, Invocation, InvocationView};
use crate::config::{Toolchain, ToolchainView};
use crate::error::Error;
use crate::launcher::Launcher;
use crate::path::{join, joined};
use crate::stage::{Outcome, Stage};
use crate::status::ExitStatus;

verus! {

/// Script that verifies a proof, relative to the script directory.
pub const VERIFIER_JS: &'static str = "main_verifier.js";

/// The line the verifier prints last when it accepts a proof.
pub const SENTINEL: &'static str = "Verification Ok!!";

/// The inputs of one verification.
#[derive(Clone, Debug, PartialEq, Eq)]
pub struct VerificationRequest {
    /// The verification key document.
    pub verification_key_json: String,
    /// The stark-info document.
    pub starkinfo_json: String,
    /// The proof document.
    pub proof_json: String,
    /// The publics document.
    pub publics_json: String,
}

/// Mathematical content of a [`VerificationRequest`].
pub struct VerificationRequestView {
    pub verification_key_json: Seq<char>,
    pub starkinfo_json: Seq<char>,
    pub proof_json: Seq<char>,
    pub publics_json: Seq<char>,
}

impl View for VerificationRequest {
    type V = VerificationRequestView;

    open spec fn view(&self) -> VerificationRequestView {
        VerificationRequestView {
            verification_key_json: self.verification_key_json@,
            starkinfo_json: self.starkinfo_json@,
            proof_json: self.proof_json@,
            publics_json: self.publics_json@,
        }
    }
}

/// Command that runs the verifier; its output is read line by line.
pub open spec fn verifier_invocation(
    tools: ToolchainView,
    request: VerificationRequestView,
) -> InvocationView {
    InvocationView {
        args: node_invocation().args + seq![
            joined(tools.pil_stark_src, VERIFIER_JS@),
            "-v"@,
            request.verification_key_json,
            "-s"@,
            request.starkinfo_json,
            "-o"@,
            request.proof_json,
            "-b"@,
            request.publics_json,
        ],
        capture_output: true,
        ..node_invocation()
    }
}

/// The command that runs the verifier on `request`.
pub fn verifier_command(tools: &Toolchain, request: &VerificationRequest) -> (inv: Invocation)
    ensures
        inv@ == verifier_invocation(tools@, request@),
{
    let script = join(tools.pil_stark_src.as_str(), VERIFIER_JS);
    let inv = node_command().arg(script.as_str()).arg("-v").arg(
        request.verification_key_json.as_str(),
    ).arg("-s").arg(request.starkinfo_json.as_str()).arg("-o").arg(
        request.proof_json.as_str(),
    ).arg("-b").arg(request.publics_json.as_str()).with_captured_output();
    assert(inv@.args =~= verifier_invocation(tools@, request@).args);
    inv
}

/// The last of the lines, or the empty line when there is none.
pub open spec fn last_line_of(lines: Seq<Seq<char>>) -> Seq<char> {
    if lines.len() == 0 {
        Seq::empty()
    } else {
        lines.last()
    }
}

/// What a capture holds after the lines were observed in order, when it held
/// `held` before.
pub open spec fn after_observing(held: Seq<char>, lines: Seq<Seq<char>>) -> Seq<char>
    decreases lines.len(),
{
    if lines.len() == 0 {
        held
    } else {
        after_observing(lines[0], lines.drop_first())
    }
}

/// A fresh capture that observes a whole output ends up with its last line,
/// and with the empty line when there was no output.
pub proof fn lemma_capture_retains_last(lines: Seq<Seq<char>>)
    ensures
        after_observing(Seq::empty(), lines) == last_line_of(lines),
{
    lemma_observing_from(Seq::empty(), lines);
}

proof fn lemma_observing_from(held: Seq<char>, lines: Seq<Seq<char>>)
    ensures
        after_observing(held, lines) == if lines.len() == 0 {
            held
        } else {
            lines.last()
        },
    decreases lines.len(),
{
    if lines.len() > 0 {
        lemma_observing_from(lines[0], lines.drop_first());
    }
}

/// Keeps the most recent line of an output that is read line by line.
#[derive(Clone, Debug, PartialEq, Eq)]
pub struct LineCapture {
    last: String,
}

impl View for LineCapture {
    type V = Seq<char>;

    closed spec fn view(&self) -> Seq<char> {
        self.last@
    }
}

impl LineCapture {
    /// A capture that has seen no line yet; it holds the empty line.
    pub fn new() -> (capture: LineCapture)
        ensures
            capture@ == Seq::<char>::empty(),
    {
        LineCapture { last: String::new() }
    }

    /// Takes in the next line; whatever was held before is dropped.
    pub fn observe(&mut self, line: &str)
        ensures
            final(self)@ == line@,
            final(self)@ == after_observing(old(self)@, seq![line@]),
    {
        self.last = String::from_str(line);
        assert(after_observing(line@, seq![line@].drop_first()) == line@);
    }

    /// The line that was observed last.
    pub fn last_line(&self) -> (line: &str)
        ensures
            line@ == self@,
    {
        self.last.as_str()
    }
}

/// The verdict on a verifier process that ended with `status` after printing
/// `last_line` last: the proof is accepted only if the process succeeded and
/// that line is the sentinel.
pub open spec fn verdict_of(status: ExitStatus, last_line: Seq<char>) -> Result<(), Error> {
    if status.is_success() && last_line == SENTINEL@ {
        Ok(())
    } else {
        Err(Error::ProofVerify(status))
    }
}

/// The result of a verification, given what the launcher observed.
pub open spec fn verification_result(outcome: Outcome, last_line: Seq<char>) -> Result<(), Error> {
    match outcome {
        Outcome::Exited(status) => verdict_of(status, last_line),
        Outcome::Failed(error) => Err(Error::IO(error)),
    }
}

/// Anything but the exact sentinel is a failed verification, whatever the
/// exit status: a different line, a truncated sentinel, no output at all.
pub proof fn lemma_fail_closed(status: ExitStatus, last_line: Seq<char>)
    ensures
        last_line != SENTINEL@ ==> verdict_of(status, last_line) == Err::<(), Error>(
            Error::ProofVerify(status),
        ),
        last_line.len() < SENTINEL@.len() ==> verdict_of(status, last_line) is Err,
        verdict_of(status, Seq::<char>::empty()) is Err,
        !status.is_success() ==> verdict_of(status, last_line) == Err::<(), Error>(
            Error::ProofVerify(status),
        ),
        verdict_of(status, last_line) is Ok <==> status.code == Some(0i32) && last_line
            == SENTINEL@,
{
    reveal_strlit("Verification Ok!!");
    assert(SENTINEL@.len() == 17);
    assert(Seq::<char>::empty().len() == 0);
}

/// A verification that is accepted would also pass as an ordinary stage; the
/// sentinel only ever turns a success into a failure.
pub proof fn lemma_verdict_refines_stage(outcome: Outcome, last_line: Seq<char>)
    ensures
        verification_result(outcome, last_line) is Ok ==> Stage::ProofVerify.judged(outcome) is Ok,
        Stage::ProofVerify.judged(outcome) matches Err(error) ==> verification_result(
            outcome,
            last_line,
        ) == Err::<(), Error>(error),
{
}

/// Decides on a verifier process that ended with `status` after printing
/// `last_line` last.
pub fn verdict(status: ExitStatus, last_line: &str) -> (result: Result<(), Error>)
    ensures
        result == verdict_of(status, last_line@),
{
    let line = String::from_str(last_line);
    let sentinel = String::from_str(SENTINEL);
    if status.success() && line == sentinel {
        Ok(())
    } else {
        Err(Error::ProofVerify(status))
    }
}

/// Decides on a verification, given what the launcher observed and the line
/// that was captured last.
pub fn conclude_verification(outcome: Outcome, last_line: &str) -> (result: Result<(), Error>)
    ensures
        result == verification_result(outcome, last_line@),
{
    match outcome {
        Outcome::Exited(status) => verdict(status, last_line),
        Outcome::Failed(error) => Err(Error::IO(error)),
    }
}

/// The inputs of a verification as one request.
pub open spec fn verification_of(
    verification_key_json: Seq<char>,
    starkinfo_json: Seq<char>,
    proof_json: Seq<char>,
    publics_json: Seq<char>,
) -> VerificationRequestView {
    VerificationRequestView { verification_key_json, starkinfo_json, proof_json, publics_json }
}

/// Whether `result` is the conclusion from the call `call`, made through
/// `launch` with the command `command`.
pub open spec fn verified<F: Fn(Invocation) -> (Outcome, String)>(
    launch: F,
    command: InvocationView,
    call: (Invocation, (Outcome, String)),
    result: Result<(), Error>,
) -> bool {
    &&& call.0@ == command
    &&& call_ensures(launch, (call.0,), call.1)
    &&& result == verification_result(call.1.0, call.1.1@)
}

/// Verifies a proof.
///
/// The launcher is asked to run the verifier command and to report how the
/// process ended and which line it printed last (the empty line if it
/// printed nothing).  Its record grows by exactly that one call.  The proof
/// is accepted if and only if the process ended successfully and that line
/// is the sentinel.
pub fn verify_proof<F: Fn(Invocation) -> (Outcome, String)>(
    tools: &Toolchain,
    verification_key_json: &str,
    starkinfo_json: &str,
    proof_json: &str,
    publics_json: &str,
    launcher: &mut Launcher<(Outcome, String), F>,
) -> (result: Result<(), Error>)
    requires
        forall|command: Invocation|
            command@ == verifier_invocation(
                tools@,
                verification_of(verification_key_json@, starkinfo_json@, proof_json@, publics_json@),
            ) ==> call_requires(old(launcher).function(), (command,)),
    ensures
        final(launcher).function() == old(launcher).function(),
        final(launcher).calls().len() == old(launcher).calls().len() + 1,
        final(launcher).calls().drop_last() == old(launcher).calls(),
        verified(
            old(launcher).function(),
            verifier_invocation(
                tools@,
                verification_of(verification_key_json@, starkinfo_json@, proof_json@, publics_json@),
            ),
            final(launcher).calls().last(),
            result,
        ),
{
    let request = VerificationRequest {
        verification_key_json: String::from_str(verification_key_json),
        starkinfo_json: String::from_str(starkinfo_json),
        proof_json: String::from_str(proof_json),
        publics_json: String::from_str(publics_json),
    };
    let command = verifier_command(tools, &request);
    let (outcome, last_line) = launcher.launch(command);
    assert(launcher.calls().drop_last() =~= old(launcher).calls());
    conclude_verification(outcome, last_line.as_str())
}

} // verus!
