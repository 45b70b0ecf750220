//! Whole runs of the pipeline, and what holds of every one of them.
//!
//! A run is what the state machine makes of a sequence of outcomes, one per
//! launched command.  The laws are stated over [`step`], the decision that
//! [`crate::pipeline::Pipeline::advance`] carries out; [`generate_proof`]
//! drives a pipeline through one run and returns how it ended.

use vstd::prelude::*;
use vstd::string::*;
use crate::command::{Invocation, InvocationView};
use crate::config::Toolchain;
use crate::error::Error;
use crate::launcher::Launcher;
use crate::layout::{ArtifactLayoutView, OutputFiles};
use crate::pipeline::{
    recoverable, step, Phase, Pipeline, PipelineView, Progress, ProofRequest, ProofRequestView,
    Step,
};
use crate::stage::Outcome;
use crate::status::ExitStatus;

verus! {

/// How far a run got.
pub enum RunEnd {
    /// The outcomes ran out; the command of this phase is the next to launch.
    Pending(Phase),
    /// Every stage succeeded.
    Succeeded,
    /// The run was aborted with this error.
    Failed(Error),
}

/// A run: the phases whose commands were launched, in order, and how far
/// the run got.  The command of `executed[i]` met the outcome `outcomes[i]`.
pub struct Run {
    pub executed: Seq<Phase>,
    pub end: RunEnd,
}

/// The run that starts at `phase` and meets `outcomes` in order.  Outcomes
/// that are left when the run has ended play no part.
pub open spec fn run_from(phase: Phase, outcomes: Seq<Outcome>) -> Run
    decreases outcomes.len(),
{
    if outcomes.len() == 0 {
        Run { executed: Seq::empty(), end: RunEnd::Pending(phase) }
    } else {
        match step(phase, outcomes[0]) {
            Step::Continue(next) => {
                let rest = run_from(next, outcomes.drop_first());
                Run { executed: seq![phase] + rest.executed, end: rest.end }
            },
            Step::Succeed => Run { executed: seq![phase], end: RunEnd::Succeeded },
            Step::Fail(error) => Run { executed: seq![phase], end: RunEnd::Failed(error) },
        }
    }
}

/// The run of a fresh pipeline that meets `outcomes`.
pub open spec fn run(outcomes: Seq<Outcome>) -> Run {
    run_from(Phase::ConstTree, outcomes)
}

/// Whether the `i`-th launched command led on to the one after it.
pub open spec fn linked(executed: Seq<Phase>, outcomes: Seq<Outcome>, i: int) -> bool {
    step(executed[i], outcomes[i]) == Step::Continue(executed[i + 1])
}

/// Whether the outcome is a process that ended successfully.
pub open spec fn succeeded(outcome: Outcome) -> bool {
    outcome matches Outcome::Exited(status) && status.is_success()
}

/// A step never leads backwards, and only a failed first attempt at the
/// constant tree leads to the installation of the dependencies.
pub proof fn lemma_step_forward(phase: Phase, outcome: Outcome)
    ensures
        step(phase, outcome) matches Step::Continue(next) ==> {
            &&& phase.rank() < next.rank()
            &&& next != Phase::ConstTree
            &&& next == Phase::InstallDependencies <==> recoverable(phase, outcome)
            &&& next == Phase::ConstTreeRetry <==> phase == Phase::InstallDependencies
            &&& next != Phase::InstallDependencies ==> succeeded(outcome)
        },
{
}

/// A run is a chain of steps: it starts at its first phase, every launched
/// command but the last led to the next one, and the last decided the end.
pub proof fn lemma_run_is_chain(phase: Phase, outcomes: Seq<Outcome>)
    ensures
        ({
            let r = run_from(phase, outcomes);
            let n = r.executed.len() as int;
            &&& n <= outcomes.len()
            &&& outcomes.len() > 0 ==> n > 0 && r.executed[0] == phase
            &&& forall|i: int| 0 <= i < n - 1 ==> #[trigger] linked(r.executed, outcomes, i)
            &&& match r.end {
                RunEnd::Pending(next) => n == outcomes.len() && if n == 0 {
                    next == phase
                } else {
                    step(r.executed[n - 1], outcomes[n - 1]) == Step::Continue(next)
                },
                RunEnd::Succeeded => n > 0 && step(r.executed[n - 1], outcomes[n - 1])
                    == Step::Succeed,
                RunEnd::Failed(error) => n > 0 && step(r.executed[n - 1], outcomes[n - 1])
                    == Step::Fail(error),
            }
        }),
    decreases outcomes.len(),
{
    if outcomes.len() > 0 {
        let r = run_from(phase, outcomes);
        match step(phase, outcomes[0]) {
            Step::Continue(next) => {
                let rest_outcomes = outcomes.drop_first();
                let rest = run_from(next, rest_outcomes);
                lemma_run_is_chain(next, rest_outcomes);
                let n = r.executed.len() as int;
                let m = rest.executed.len() as int;
                assert(r.executed == seq![phase] + rest.executed);
                assert(n == m + 1);
                assert(r.executed[0] == phase);
                assert forall|i: int| 0 <= i < n - 1 implies #[trigger] linked(
                    r.executed,
                    outcomes,
                    i,
                ) by {
                    assert(r.executed[i + 1] == rest.executed[i]);
                    if i == 0 {
                        assert(rest.executed[0] == next);
                    } else {
                        assert(r.executed[i] == rest.executed[i - 1]);
                        assert(outcomes[i] == rest_outcomes[i - 1]);
                        assert(linked(rest.executed, rest_outcomes, i - 1));
                    }
                }
                if m > 0 {
                    assert(r.executed[n - 1] == rest.executed[m - 1]);
                    assert(outcomes[n - 1] == rest_outcomes[m - 1]);
                }
            },
            Step::Succeed => {},
            Step::Fail(error) => {},
        }
    }
}

/// Along a run the phases only move forward.
pub proof fn lemma_ranks_increase(outcomes: Seq<Outcome>, i: int, j: int)
    requires
        0 <= i < j < run(outcomes).executed.len(),
    ensures
        run(outcomes).executed[i].rank() + (j - i) <= run(outcomes).executed[j].rank(),
    decreases j - i,
{
    let r = run(outcomes);
    lemma_run_is_chain(Phase::ConstTree, outcomes);
    assert(linked(r.executed, outcomes, j - 1));
    lemma_step_forward(r.executed[j - 1], outcomes[j - 1]);
    if i < j - 1 {
        lemma_ranks_increase(outcomes, i, j - 1);
    }
}

/// No run launches more than seven commands, and none launches the command
/// of one phase twice.
pub proof fn lemma_phases_run_once(outcomes: Seq<Outcome>)
    ensures
        run(outcomes).executed.len() <= 7,
        forall|i: int, j: int|
            0 <= i < j < run(outcomes).executed.len() ==> #[trigger] run(outcomes).executed[i]
                != #[trigger] run(outcomes).executed[j],
{
    let r = run(outcomes);
    let n = r.executed.len() as int;
    assert forall|i: int, j: int| 0 <= i < j < n implies #[trigger] r.executed[i]
        != #[trigger] r.executed[j] by {
        lemma_ranks_increase(outcomes, i, j);
    }
    if n > 7 {
        lemma_ranks_increase(outcomes, 0, 7);
    }
}

/// The recovery happens at most once.
///
/// The dependencies are installed at most once per run, and only as the
/// second command, after the first attempt at the constant tree ended
/// unsuccessfully.  The constant tree is attempted at most twice: first of
/// all, and as the third command right after a successful installation.
/// Whenever the outcomes reach that far, the installation and the retry do
/// take place.
pub proof fn lemma_recovery_at_most_once(outcomes: Seq<Outcome>)
    ensures
        ({
            let r = run(outcomes);
            let n = r.executed.len() as int;
            let failed_first = recoverable(Phase::ConstTree, outcomes[0]);
            &&& forall|i: int|
                0 <= i < n ==> (#[trigger] r.executed[i] == Phase::ConstTree <==> i == 0)
            &&& forall|i: int|
                0 <= i < n ==> (#[trigger] r.executed[i] == Phase::InstallDependencies <==> i == 1
                    && failed_first)
            &&& forall|i: int|
                0 <= i < n ==> (#[trigger] r.executed[i] == Phase::ConstTreeRetry <==> i == 2
                    && failed_first && succeeded(outcomes[1]))
            &&& outcomes.len() >= 2 && failed_first ==> n >= 2 && r.executed[1]
                == Phase::InstallDependencies
            &&& outcomes.len() >= 3 && failed_first && succeeded(outcomes[1]) ==> n >= 3
                && r.executed[2] == Phase::ConstTreeRetry
        }),
{
    let r = run(outcomes);
    let n = r.executed.len() as int;
    lemma_run_is_chain(Phase::ConstTree, outcomes);
    assert forall|i: int| 0 <= i < n implies (#[trigger] r.executed[i] == Phase::ConstTree <==> i
        == 0) by {
        if i > 0 {
            lemma_ranks_increase(outcomes, 0, i);
        }
    }
    assert forall|i: int| 0 <= i < n implies (#[trigger] r.executed[i]
        == Phase::InstallDependencies <==> i == 1 && recoverable(
        Phase::ConstTree,
        outcomes[0],
    )) by {
        lemma_second_command(outcomes, i);
    }
    assert forall|i: int| 0 <= i < n implies (#[trigger] r.executed[i] == Phase::ConstTreeRetry
        <==> i == 2 && recoverable(Phase::ConstTree, outcomes[0]) && succeeded(outcomes[1])) by {
        lemma_third_command(outcomes, i);
    }
    if recoverable(Phase::ConstTree, outcomes[0]) {
        lemma_recovery_taken(outcomes);
    }
}

/// The recovery is taken as soon as the first attempt at the constant tree
/// ended unsuccessfully.
proof fn lemma_recovery_taken(outcomes: Seq<Outcome>)
    requires
        recoverable(Phase::ConstTree, outcomes[0]),
    ensures
        outcomes.len() >= 2 ==> run(outcomes).executed.len() >= 2 && run(outcomes).executed[1]
            == Phase::InstallDependencies,
        outcomes.len() >= 3 && succeeded(outcomes[1]) ==> run(outcomes).executed.len() >= 3 && run(
            outcomes,
        ).executed[2] == Phase::ConstTreeRetry,
{
    if outcomes.len() >= 2 {
        let o1 = outcomes.drop_first();
        lemma_run_unfolds(Phase::ConstTree, outcomes);
        lemma_run_is_chain(Phase::InstallDependencies, o1);
        if outcomes.len() >= 3 && succeeded(outcomes[1]) {
            assert(o1[0] == outcomes[1]);
            lemma_run_unfolds(Phase::InstallDependencies, o1);
            lemma_run_is_chain(Phase::ConstTreeRetry, o1.drop_first());
        }
    }
}

/// A failed recovery is named by what failed.
///
/// When the installation of the dependencies ends unsuccessfully, the run
/// ends there with the installation error.  When the installation succeeds
/// and the second attempt at the constant tree ends unsuccessfully, the run
/// ends there with the error of the constant tree stage: there is no second
/// installation and no third attempt.
pub proof fn lemma_recovery_failure(outcomes: Seq<Outcome>, status: ExitStatus)
    requires
        recoverable(Phase::ConstTree, outcomes[0]),
        !status.is_success(),
    ensures
        outcomes.len() >= 2 && outcomes[1] == Outcome::Exited(status) ==> {
            &&& run(outcomes).executed =~= seq![Phase::ConstTree, Phase::InstallDependencies]
            &&& run(outcomes).end == RunEnd::Failed(Error::NpmInstall(status))
        },
        outcomes.len() >= 3 && succeeded(outcomes[1]) && outcomes[2] == Outcome::Exited(status)
            ==> {
            &&& run(outcomes).executed =~= seq![
                Phase::ConstTree,
                Phase::InstallDependencies,
                Phase::ConstTreeRetry,
            ]
            &&& run(outcomes).end == RunEnd::Failed(Error::ConstTreeGen(status))
        },
{
    lemma_recovery_taken(outcomes);
    lemma_recovery_at_most_once(outcomes);
    if outcomes.len() >= 2 && outcomes[1] == Outcome::Exited(status) {
        lemma_failure_ends_run(outcomes, 1);
    }
    if outcomes.len() >= 3 && succeeded(outcomes[1]) && outcomes[2] == Outcome::Exited(status) {
        lemma_failure_ends_run(outcomes, 2);
    }
}

/// The dependencies are installed by the second command or not at all.
proof fn lemma_second_command(outcomes: Seq<Outcome>, i: int)
    requires
        0 <= i < run(outcomes).executed.len(),
    ensures
        run(outcomes).executed[i] == Phase::InstallDependencies <==> i == 1 && recoverable(
            Phase::ConstTree,
            outcomes[0],
        ),
{
    let r = run(outcomes);
    lemma_run_is_chain(Phase::ConstTree, outcomes);
    if i >= 1 {
        assert(linked(r.executed, outcomes, i - 1));
        lemma_step_forward(r.executed[i - 1], outcomes[i - 1]);
        if i >= 2 {
            lemma_ranks_increase(outcomes, 0, i - 1);
        }
    }
}

/// The constant tree is retried by the third command or not at all.
proof fn lemma_third_command(outcomes: Seq<Outcome>, i: int)
    requires
        0 <= i < run(outcomes).executed.len(),
    ensures
        run(outcomes).executed[i] == Phase::ConstTreeRetry <==> i == 2 && recoverable(
            Phase::ConstTree,
            outcomes[0],
        ) && succeeded(outcomes[1]),
{
    let r = run(outcomes);
    lemma_run_is_chain(Phase::ConstTree, outcomes);
    if i >= 1 {
        assert(linked(r.executed, outcomes, i - 1));
        lemma_step_forward(r.executed[i - 1], outcomes[i - 1]);
        lemma_second_command(outcomes, i - 1);
    }
}

/// One unfolding of a run whose first command leads on.
proof fn lemma_run_unfolds(phase: Phase, outcomes: Seq<Outcome>)
    requires
        outcomes.len() > 0,
        step(phase, outcomes[0]) is Continue,
    ensures
        run_from(phase, outcomes).executed == seq![phase] + run_from(
            step(phase, outcomes[0])->Continue_0,
            outcomes.drop_first(),
        ).executed,
        run_from(phase, outcomes).end == run_from(
            step(phase, outcomes[0])->Continue_0,
            outcomes.drop_first(),
        ).end,
        forall|i: int|
            0 <= i < outcomes.len() - 1 ==> #[trigger] outcomes.drop_first()[i] == outcomes[i + 1],
{
}

/// Stages are isolated: a failure stops the run at once.
///
/// Whenever a command does not end successfully, and it is not the one
/// failure that the recovery answers, it is the last command of the run, and
/// the run ends with the error of that command's stage, carrying the exit
/// status of that very process (or with the I/O error, if the operating
/// system refused).
pub proof fn lemma_failure_ends_run(outcomes: Seq<Outcome>, i: int)
    requires
        0 <= i < run(outcomes).executed.len(),
        !succeeded(outcomes[i]),
        !recoverable(run(outcomes).executed[i], outcomes[i]),
    ensures
        run(outcomes).executed.len() == i + 1,
        run(outcomes).end == RunEnd::Failed(
            run(outcomes).executed[i].stage().judged(outcomes[i])->Err_0,
        ),
        outcomes[i] matches Outcome::Exited(status) ==> run(outcomes).end == RunEnd::Failed(
            run(outcomes).executed[i].stage().failure(status),
        ),
        outcomes[i] matches Outcome::Failed(error) ==> run(outcomes).end == RunEnd::Failed(
            Error::IO(error),
        ),
{
    let r = run(outcomes);
    let n = r.executed.len() as int;
    lemma_run_is_chain(Phase::ConstTree, outcomes);
    if i < n - 1 {
        assert(linked(r.executed, outcomes, i));
    }
}

/// A run fails only through the command it launched last: that command did
/// not end successfully, the recovery did not answer it, and the error of
/// the run is the judgement of its stage on that outcome.
pub proof fn lemma_failure_has_cause(outcomes: Seq<Outcome>)
    requires
        run(outcomes).end is Failed,
    ensures
        ({
            let r = run(outcomes);
            let last = r.executed.len() - 1;
            &&& 0 <= last < outcomes.len()
            &&& !succeeded(outcomes[last])
            &&& !recoverable(r.executed[last], outcomes[last])
            &&& r.end == RunEnd::Failed(r.executed[last].stage().judged(outcomes[last])->Err_0)
        }),
{
    lemma_run_is_chain(Phase::ConstTree, outcomes);
}

/// A run succeeds only through the last stage, and only if every command it
/// launched ended successfully, except for a first attempt at the constant
/// tree that the recovery made up for.
pub proof fn lemma_success_needs_every_stage(outcomes: Seq<Outcome>)
    requires
        run(outcomes).end is Succeeded,
    ensures
        ({
            let r = run(outcomes);
            let n = r.executed.len() as int;
            &&& n == 5 || n == 7
            &&& r.executed[n - 1] == Phase::Proof
            &&& n == 5 ==> r.executed =~= seq![
                Phase::ConstTree,
                Phase::StarkInfo,
                Phase::CHelpersGen,
                Phase::CHelpersCompile,
                Phase::Proof,
            ]
            &&& n == 7 ==> r.executed =~= seq![
                Phase::ConstTree,
                Phase::InstallDependencies,
                Phase::ConstTreeRetry,
                Phase::StarkInfo,
                Phase::CHelpersGen,
                Phase::CHelpersCompile,
                Phase::Proof,
            ]
            &&& forall|i: int|
                0 <= i < n ==> succeeded(#[trigger] outcomes[i]) || (i == 0 && n == 7)
        }),
{
    let r = run(outcomes);
    lemma_run_is_chain(Phase::ConstTree, outcomes);
    lemma_phases_run_once(outcomes);
    lemma_chain_shape(r.executed, outcomes);
}

/// The two shapes a complete chain of steps can have.
proof fn lemma_chain_shape(executed: Seq<Phase>, outcomes: Seq<Outcome>)
    requires
        0 < executed.len() <= 7,
        executed.len() <= outcomes.len(),
        executed[0] == Phase::ConstTree,
        step(executed[executed.len() - 1], outcomes[executed.len() - 1]) == Step::Succeed,
        forall|i: int| 0 <= i < executed.len() - 1 ==> #[trigger] linked(executed, outcomes, i),
    ensures
        executed.len() == 5 || executed.len() == 7,
        executed[executed.len() - 1] == Phase::Proof,
        executed.len() == 5 ==> executed =~= seq![
            Phase::ConstTree,
            Phase::StarkInfo,
            Phase::CHelpersGen,
            Phase::CHelpersCompile,
            Phase::Proof,
        ],
        executed.len() == 7 ==> executed =~= seq![
            Phase::ConstTree,
            Phase::InstallDependencies,
            Phase::ConstTreeRetry,
            Phase::StarkInfo,
            Phase::CHelpersGen,
            Phase::CHelpersCompile,
            Phase::Proof,
        ],
        forall|i: int|
            0 <= i < executed.len() ==> succeeded(#[trigger] outcomes[i]) || (i == 0
                && executed.len() == 7),
{
    let n = executed.len() as int;
    if n > 1 {
        assert(linked(executed, outcomes, 0));
    }
    if n > 2 {
        assert(linked(executed, outcomes, 1));
    }
    if n > 3 {
        assert(linked(executed, outcomes, 2));
    }
    if n > 4 {
        assert(linked(executed, outcomes, 3));
    }
    if n > 5 {
        assert(linked(executed, outcomes, 4));
    }
    if n > 6 {
        assert(linked(executed, outcomes, 5));
    }
}

/// When every command ends successfully, the five stages run in their order,
/// nothing is installed, and the run succeeds.
pub proof fn lemma_clean_run(outcomes: Seq<Outcome>)
    requires
        outcomes.len() >= 5,
        forall|i: int| 0 <= i < 5 ==> succeeded(#[trigger] outcomes[i]),
    ensures
        run(outcomes).executed =~= seq![
            Phase::ConstTree,
            Phase::StarkInfo,
            Phase::CHelpersGen,
            Phase::CHelpersCompile,
            Phase::Proof,
        ],
        run(outcomes).end is Succeeded,
{
    let o1 = outcomes.drop_first();
    let o2 = o1.drop_first();
    let o3 = o2.drop_first();
    let o4 = o3.drop_first();
    assert(succeeded(outcomes[0]));
    assert(succeeded(outcomes[1]) && o1[0] == outcomes[1]);
    assert(succeeded(outcomes[2]) && o2[0] == outcomes[2]);
    assert(succeeded(outcomes[3]) && o3[0] == outcomes[3]);
    assert(succeeded(outcomes[4]) && o4[0] == outcomes[4]);
    lemma_run_unfolds(Phase::ConstTree, outcomes);
    lemma_run_unfolds(Phase::StarkInfo, o1);
    lemma_run_unfolds(Phase::CHelpersGen, o2);
    lemma_run_unfolds(Phase::CHelpersCompile, o3);
    assert(run_from(Phase::Proof, o4).executed == seq![Phase::Proof]);
}

/// Meeting one more outcome launches the pending command and nothing else.
pub proof fn lemma_run_extends(phase: Phase, outcomes: Seq<Outcome>, outcome: Outcome)
    requires
        run_from(phase, outcomes).end is Pending,
    ensures
        ({
            let before = run_from(phase, outcomes);
            let after = run_from(phase, outcomes.push(outcome));
            let pending = before.end->Pending_0;
            &&& before.executed.len() == outcomes.len()
            &&& after.executed == before.executed.push(pending)
            &&& after.end == match step(pending, outcome) {
                Step::Continue(next) => RunEnd::Pending(next),
                Step::Succeed => RunEnd::Succeeded,
                Step::Fail(error) => RunEnd::Failed(error),
            }
        }),
    decreases outcomes.len(),
{
    let longer = outcomes.push(outcome);
    reveal_with_fuel(run_from, 2);
    if outcomes.len() == 0 {
        assert(longer[0] == outcome);
        assert(longer.drop_first() =~= Seq::empty());
        let after = run_from(phase, longer);
        assert(after.executed =~= Seq::<Phase>::empty().push(phase));
    } else {
        let next = step(phase, outcomes[0])->Continue_0;
        let rest = outcomes.drop_first();
        lemma_run_extends(next, rest, outcome);
        assert(longer[0] == outcomes[0]);
        assert(longer.drop_first() =~= rest.push(outcome));
        let before = run_from(phase, outcomes);
        let after = run_from(phase, longer);
        assert(after.executed =~= before.executed.push(before.end->Pending_0));
    }
}

/// The inputs of a proof generation as one request.
pub open spec fn request_of(
    pil_json: Seq<char>,
    starkstruct_json: Seq<char>,
    constants_bin: Seq<char>,
    commits_bin: Seq<char>,
    output_dir: Seq<char>,
) -> ProofRequestView {
    ProofRequestView { pil_json, starkstruct_json, constants_bin, commits_bin, output_dir }
}

/// Whether `command` is the command of some phase of the pipeline `start`.
pub open spec fn is_command_of(start: PipelineView, command: InvocationView) -> bool {
    exists|phase: Phase| command == (#[trigger] start.at(phase)).invocation()
}

/// The outcomes of a record of calls, in order.
pub open spec fn outcomes_of(calls: Seq<(Invocation, Outcome)>) -> Seq<Outcome> {
    Seq::new(calls.len(), |i: int| calls[i].1)
}

/// Whether `calls` is the record of one run of the pipeline `start` carried
/// out by `launch`: the run launched a command for every call and no other;
/// the commands are those of the phases of the run, in order; and each
/// outcome is what `launch` returned for the command at its position.
pub open spec fn carried_out<F: Fn(Invocation) -> Outcome>(
    launch: F,
    start: PipelineView,
    calls: Seq<(Invocation, Outcome)>,
) -> bool {
    &&& run(outcomes_of(calls)).executed.len() == calls.len()
    &&& forall|i: int|
        0 <= i < calls.len() ==> {
            &&& (#[trigger] calls[i]).0@ == start.at(
                run(outcomes_of(calls)).executed[i],
            ).invocation()
            &&& call_ensures(launch, (calls[i].0,), calls[i].1)
        }
}

/// Whether `result` reports the end of a finished run with the given layout.
pub open spec fn reports(
    result: Result<OutputFiles, Error>,
    end: RunEnd,
    layout: ArtifactLayoutView,
) -> bool {
    match end {
        RunEnd::Pending(_) => false,
        RunEnd::Succeeded => result matches Ok(files) && files@ == layout.output_files(),
        RunEnd::Failed(error) => result == Err::<OutputFiles, Error>(error),
    }
}

/// Whether `calls` is the record of a finished run of the pipeline `start`
/// carried out by `launch`, and `result` is how that run ended.
pub open spec fn generated<F: Fn(Invocation) -> Outcome>(
    launch: F,
    start: PipelineView,
    calls: Seq<(Invocation, Outcome)>,
    result: Result<OutputFiles, Error>,
) -> bool {
    &&& carried_out(launch, start, calls)
    &&& reports(result, run(outcomes_of(calls)).end, start.layout())
}

fn copy_of(tools: &Toolchain) -> (copy: Toolchain)
    ensures
        copy@ == tools@,
{
    Toolchain {
        deps_dir: tools.deps_dir.clone(),
        pil_stark_root: tools.pil_stark_root.clone(),
        pil_stark_src: tools.pil_stark_src.clone(),
        zkevm_prover_dir: tools.zkevm_prover_dir.clone(),
    }
}

/// Generates a proof by running the pipeline to its end.
///
/// The launcher is asked to carry out one command after the other and to
/// report what happened.  Its record grows by exactly the calls of this run:
/// one call per phase the state machine goes through, each with the command
/// of its phase, in order, and none after the outcome that ends the run.  On
/// success the result names the verification key, the stark-info document
/// and the proof document under `output_dir`; otherwise it is the error the
/// run ended with.
pub fn generate_proof<F: Fn(Invocation) -> Outcome>(
    tools: &Toolchain,
    pil_json: &str,
    starkstruct_json: &str,
    constants_bin: &str,
    commits_bin: &str,
    output_dir: &str,
    launcher: &mut Launcher<Outcome, F>,
) -> (result: Result<OutputFiles, Error>)
    requires
        forall|command: Invocation| #[trigger]
            is_command_of(
                PipelineView::fresh(
                    tools@,
                    request_of(
                        pil_json@,
                        starkstruct_json@,
                        constants_bin@,
                        commits_bin@,
                        output_dir@,
                    ),
                ),
                command@,
            ) ==> call_requires(old(launcher).function(), (command,)),
    ensures
        final(launcher).function() == old(launcher).function(),
        old(launcher).calls().is_prefix_of(final(launcher).calls()),
        generated(
            old(launcher).function(),
            PipelineView::fresh(
                tools@,
                request_of(pil_json@, starkstruct_json@, constants_bin@, commits_bin@, output_dir@),
            ),
            final(launcher).calls().skip(old(launcher).calls().len() as int),
            result,
        ),
{
    let request = ProofRequest {
        pil_json: String::from_str(pil_json),
        starkstruct_json: String::from_str(starkstruct_json),
        constants_bin: String::from_str(constants_bin),
        commits_bin: String::from_str(commits_bin),
        output_dir: String::from_str(output_dir),
    };
    let ghost start = PipelineView::fresh(tools@, request@);
    let ghost launch = launcher.function();
    let ghost before = launcher.calls();
    let ghost mut calls: Seq<(Invocation, Outcome)> = Seq::empty();
    let mut pipeline = Pipeline::new(copy_of(tools), request);
    assert(outcomes_of(calls) =~= Seq::empty());
    assert(before + calls =~= before);
    loop
        invariant
            start == PipelineView::fresh(
                tools@,
                request_of(pil_json@, starkstruct_json@, constants_bin@, commits_bin@, output_dir@),
            ),
            launch == old(launcher).function(),
            before == old(launcher).calls(),
            launcher.function() == launch,
            launcher.calls() == before + calls,
            pipeline@ == start.at(pipeline@.phase),
            run(outcomes_of(calls)).end == RunEnd::Pending(pipeline@.phase),
            carried_out(launch, start, calls),
            forall|command: Invocation| #[trigger]
                is_command_of(start, command@) ==> call_requires(launch, (command,)),
        decreases 7 - pipeline@.phase.rank(),
    {
        let command = pipeline.invocation();
        assert(is_command_of(start, command@)) by {
            assert(command@ == start.at(pipeline@.phase).invocation());
        }
        let outcome = launcher.launch(command);
        proof {
            let outcomes = outcomes_of(calls);
            let longer = calls.push((command, outcome));
            assert(outcomes_of(longer) =~= outcomes.push(outcome));
            lemma_run_extends(Phase::ConstTree, outcomes, outcome);
            lemma_step_forward(pipeline@.phase, outcome);
            assert forall|i: int| 0 <= i < longer.len() implies {
                &&& (#[trigger] longer[i]).0@ == start.at(
                    run(outcomes_of(longer)).executed[i],
                ).invocation()
                &&& call_ensures(launch, (longer[i].0,), longer[i].1)
            } by {
                if i < calls.len() {
                    assert(longer[i] == calls[i]);
                    assert(run(outcomes_of(longer)).executed[i] == run(outcomes).executed[i]);
                }
            }
            assert(before + longer =~= (before + calls).push((command, outcome)));
            calls = longer;
        }
        match pipeline.advance(outcome) {
            Progress::Continue(next) => {
                pipeline = next;
            },
            Progress::Finished(result) => {
                assert(launcher.calls().skip(before.len() as int) =~= calls);
                return result;
            },
        }
    }
}

} // verus!
