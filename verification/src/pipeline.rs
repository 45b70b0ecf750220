//! The proof generation pipeline as a state machine.
//!
//! A [`Pipeline`] names the command of its current phase; the caller launches
//! it and reports what happened; [`Pipeline::advance`] then decides whether
//! the run goes on, and with which phase, or ends, and how.

use vstd::prelude::*;
use vstd::string::*;
use crate::command::{node_command, node_invocation, Invocation, InvocationView};
use crate::config::{Toolchain, ToolchainView};
use crate::error::Error;
use crate::layout::{layout_of, ArtifactLayout, ArtifactLayoutView, ConstTreeFormat, OutputFiles};
use crate::path::{join, joined};
use crate::stage::{Outcome, Stage};

verus! {

/// Script that builds the constant tree, relative to the script directory.
pub const BUILD_CONSTTREE_JS: &'static str = "main_buildconsttree.js";

/// Script that derives the stark-info document.
pub const GEN_STARKINFO_JS: &'static str = "main_genstarkinfo.js";

/// Script that generates the helper code.
pub const BUILD_CHELPERS_JS: &'static str = "main_buildchelpers.js";

/// The package manager that installs the scripts' dependencies.
pub const NPM: &'static str = "npm";

/// The compiler of the helper library.
pub const CXX: &'static str = "g++";

/// Driver source that is compiled into the helper library, relative to the
/// tool directory.
pub const DYNAMIC_CHELPERS_CPP: &'static str = "zkevm-prover/test/examples/dynamic_chelpers.cpp";

/// The prover executable, relative to the prover tree.
pub const PROVER_BINARY: &'static str = "build/zkProverTest";

/// The inputs of one proof generation.
#[derive(Clone, Debug, PartialEq, Eq)]
pub struct ProofRequest {
    /// The constraint document.
    pub pil_json: String,
    /// The prover structure document.
    pub starkstruct_json: String,
    /// The constants binary.
    pub constants_bin: String,
    /// The commitments binary.
    pub commits_bin: String,
    /// The directory that receives every artifact.
    pub output_dir: String,
}

/// Mathematical content of a [`ProofRequest`].
pub struct ProofRequestView {
    pub pil_json: Seq<char>,
    pub starkstruct_json: Seq<char>,
    pub constants_bin: Seq<char>,
    pub commits_bin: Seq<char>,
    pub output_dir: Seq<char>,
}

impl View for ProofRequest {
    type V = ProofRequestView;

    open spec fn view(&self) -> ProofRequestView {
        ProofRequestView {
            pil_json: self.pil_json@,
            starkstruct_json: self.starkstruct_json@,
            constants_bin: self.constants_bin@,
            commits_bin: self.commits_bin@,
            output_dir: self.output_dir@,
        }
    }
}

/// The positions of a run.  Each position launches one command.
#[derive(Clone, Copy, Debug, PartialEq, Eq, Structural)]
pub enum Phase {
    /// First attempt at the constant tree.
    ConstTree,
    /// Installing the tool's dependencies after the first attempt failed.
    InstallDependencies,
    /// Second and last attempt at the constant tree.
    ConstTreeRetry,
    /// Deriving the stark-info document.
    StarkInfo,
    /// Generating the helper code.
    CHelpersGen,
    /// Compiling the helper library.
    CHelpersCompile,
    /// Running the prover.
    Proof,
}

/// What follows from the outcome of one phase.
pub enum Step {
    /// The run goes on with this phase.
    Continue(Phase),
    /// The run is complete.
    Succeed,
    /// The run is aborted with this error.
    Fail(Error),
}

impl Phase {
    /// The stage whose command this phase launches.
    pub open spec fn stage(self) -> Stage {
        match self {
            Phase::ConstTree => Stage::ConstTreeGen,
            Phase::InstallDependencies => Stage::NpmInstall,
            Phase::ConstTreeRetry => Stage::ConstTreeGen,
            Phase::StarkInfo => Stage::StarkInfoGen,
            Phase::CHelpersGen => Stage::CHelpersGen,
            Phase::CHelpersCompile => Stage::CHelpersCompile,
            Phase::Proof => Stage::ProofGen,
        }
    }

    /// The phase that follows when this one succeeded; none after the last.
    pub open spec fn successor(self) -> Option<Phase> {
        match self {
            Phase::ConstTree => Some(Phase::StarkInfo),
            Phase::InstallDependencies => Some(Phase::ConstTreeRetry),
            Phase::ConstTreeRetry => Some(Phase::StarkInfo),
            Phase::StarkInfo => Some(Phase::CHelpersGen),
            Phase::CHelpersGen => Some(Phase::CHelpersCompile),
            Phase::CHelpersCompile => Some(Phase::Proof),
            Phase::Proof => None,
        }
    }

    /// Position of the phase in the fixed order of a run.
    pub open spec fn rank(self) -> nat {
        match self {
            Phase::ConstTree => 0,
            Phase::InstallDependencies => 1,
            Phase::ConstTreeRetry => 2,
            Phase::StarkInfo => 3,
            Phase::CHelpersGen => 4,
            Phase::CHelpersCompile => 5,
            Phase::Proof => 6,
        }
    }

    /// The stage whose command this phase launches.
    pub fn stage_of(self) -> (stage: Stage)
        ensures
            stage == self.stage(),
    {
        match self {
            Phase::ConstTree => Stage::ConstTreeGen,
            Phase::InstallDependencies => Stage::NpmInstall,
            Phase::ConstTreeRetry => Stage::ConstTreeGen,
            Phase::StarkInfo => Stage::StarkInfoGen,
            Phase::CHelpersGen => Stage::CHelpersGen,
            Phase::CHelpersCompile => Stage::CHelpersCompile,
            Phase::Proof => Stage::ProofGen,
        }
    }

    /// The phase that follows when this one succeeded.
    pub fn next(self) -> (next: Option<Phase>)
        ensures
            next == self.successor(),
    {
        match self {
            Phase::ConstTree => Some(Phase::StarkInfo),
            Phase::InstallDependencies => Some(Phase::ConstTreeRetry),
            Phase::ConstTreeRetry => Some(Phase::StarkInfo),
            Phase::StarkInfo => Some(Phase::CHelpersGen),
            Phase::CHelpersGen => Some(Phase::CHelpersCompile),
            Phase::CHelpersCompile => Some(Phase::Proof),
            Phase::Proof => None,
        }
    }
}

/// Whether a failure of `phase` is answered by the recovery branch: only the
/// first attempt at the constant tree is, and only when its process ran and
/// ended unsuccessfully.
pub open spec fn recoverable(phase: Phase, outcome: Outcome) -> bool {
    &&& phase == Phase::ConstTree
    &&& outcome matches Outcome::Exited(status)
    &&& !status.is_success()
}

/// The decision of the pipeline after `phase` was launched with `outcome`.
///
/// A success leads to the next phase, or completes the run after the last.
/// A failure aborts the run with the error of the phase's stage, with one
/// exception: after a failed first attempt at the constant tree the
/// dependencies are installed.
pub open spec fn step(phase: Phase, outcome: Outcome) -> Step {
    match phase.stage().judged(outcome) {
        Ok(_) => match phase.successor() {
            Some(next) => Step::Continue(next),
            None => Step::Succeed,
        },
        Err(error) => if recoverable(phase, outcome) {
            Step::Continue(Phase::InstallDependencies)
        } else {
            Step::Fail(error)
        },
    }
}

/// The compiler option that adds `dir` to the include path.
pub open spec fn include_flag(dir: Seq<char>) -> Seq<char> {
    "-I"@ + dir
}

/// Command of both attempts at the constant tree.  It is the first to write
/// into the output directory, so that directory is created first.
pub open spec fn consttree_invocation(
    tools: ToolchainView,
    request: ProofRequestView,
    layout: ArtifactLayoutView,
) -> InvocationView {
    InvocationView {
        args: node_invocation().args + seq![
            joined(tools.pil_stark_src, BUILD_CONSTTREE_JS@),
            "-c"@,
            request.constants_bin,
            "-j"@,
            request.pil_json,
            "-s"@,
            request.starkstruct_json,
            "-t"@,
            layout.consttree,
            "-v"@,
            layout.verification_key_json,
        ],
        required_dir: Some(request.output_dir),
        ..node_invocation()
    }
}

/// Command that installs the dependencies, run inside the tool's own tree.
pub open spec fn install_invocation(tools: ToolchainView) -> InvocationView {
    InvocationView {
        args: seq!["install"@],
        working_dir: Some(tools.pil_stark_root),
        ..InvocationView::plain(NPM@)
    }
}

/// Command that derives the stark-info document.
pub open spec fn starkinfo_invocation(
    tools: ToolchainView,
    request: ProofRequestView,
    layout: ArtifactLayoutView,
) -> InvocationView {
    InvocationView {
        args: node_invocation().args + seq![
            joined(tools.pil_stark_src, GEN_STARKINFO_JS@),
            "-j"@,
            request.pil_json,
            "-s"@,
            request.starkstruct_json,
            "-i"@,
            layout.starkinfo_json,
        ],
        ..node_invocation()
    }
}

/// Command that generates the full set of helpers.
pub open spec fn chelpers_invocation(
    tools: ToolchainView,
    layout: ArtifactLayoutView,
) -> InvocationView {
    InvocationView {
        args: node_invocation().args + seq![
            joined(tools.pil_stark_src, BUILD_CHELPERS_JS@),
            "-s"@,
            layout.starkinfo_json,
            "-c"@,
            layout.chelpers_header_dir,
            "-C"@,
            "All"@,
            "-b"@,
            layout.chelpers_bin,
        ],
        ..node_invocation()
    }
}

/// Command that compiles the helper library.
pub open spec fn compile_invocation(
    tools: ToolchainView,
    layout: ArtifactLayoutView,
) -> InvocationView {
    InvocationView {
        args: seq![
            "-std=c++17"@,
            "-shared"@,
            "-fPIC"@,
            "-fopenmp"@,
            "-mavx2"@,
            "-O3"@,
            "-DNOMINMAX"@,
            "-o"@,
            layout.dynamic_chelpers,
            joined(tools.deps_dir, DYNAMIC_CHELPERS_CPP@),
            include_flag(layout.chelpers_header_dir),
            include_flag(joined(tools.zkevm_prover_dir, "src/config"@)),
            include_flag(joined(tools.zkevm_prover_dir, "src/starkpil"@)),
            include_flag(joined(tools.zkevm_prover_dir, "src/utils"@)),
            include_flag(joined(tools.zkevm_prover_dir, "src/goldilocks/src"@)),
            include_flag(joined(tools.zkevm_prover_dir, "src/rapidsnark"@)),
        ],
        ..InvocationView::plain(CXX@)
    }
}

/// Command that runs the prover.  It runs inside the output directory, so
/// every argument is passed in canonical form, and the directory it writes
/// the proof into is created first.
pub open spec fn proof_invocation(
    tools: ToolchainView,
    request: ProofRequestView,
    layout: ArtifactLayoutView,
) -> InvocationView {
    InvocationView {
        program: joined(tools.zkevm_prover_dir, PROVER_BINARY@),
        args: seq![
            request.constants_bin,
            layout.consttree,
            layout.starkinfo_json,
            request.commits_bin,
            layout.chelpers_bin,
            layout.dynamic_chelpers,
            layout.verification_key_json,
        ],
        working_dir: Some(request.output_dir),
        required_dir: Some(layout.proof_output_dir),
        canonicalize_args: true,
        capture_output: false,
    }
}

/// Mathematical content of a [`Pipeline`].
pub struct PipelineView {
    pub tools: ToolchainView,
    pub request: ProofRequestView,
    pub format: ConstTreeFormat,
    pub phase: Phase,
}

impl PipelineView {
    /// A run for `request` that has launched nothing yet and stores the
    /// constant tree as a binary blob.
    pub open spec fn fresh(tools: ToolchainView, request: ProofRequestView) -> PipelineView {
        PipelineView { tools, request, format: ConstTreeFormat::Binary, phase: Phase::ConstTree }
    }

    /// The same run at another phase.
    pub open spec fn at(self, phase: Phase) -> PipelineView {
        PipelineView { phase, ..self }
    }

    /// The artifact layout of the run.
    pub open spec fn layout(self) -> ArtifactLayoutView {
        layout_of(self.request.output_dir, self.format)
    }

    /// The command of the current phase.
    pub open spec fn invocation(self) -> InvocationView {
        match self.phase {
            Phase::ConstTree => consttree_invocation(self.tools, self.request, self.layout()),
            Phase::InstallDependencies => install_invocation(self.tools),
            Phase::ConstTreeRetry => consttree_invocation(self.tools, self.request, self.layout()),
            Phase::StarkInfo => starkinfo_invocation(self.tools, self.request, self.layout()),
            Phase::CHelpersGen => chelpers_invocation(self.tools, self.layout()),
            Phase::CHelpersCompile => compile_invocation(self.tools, self.layout()),
            Phase::Proof => proof_invocation(self.tools, self.request, self.layout()),
        }
    }
}

/// What each command asks of its launcher beyond the launch itself.
///
/// A directory is created for the first stage that writes into it: the
/// output directory before either attempt at the constant tree, and the
/// directory of the proof document before the prover; no other command asks
/// for one.  Only two commands run outside the caller's directory: the
/// installation, which is given no path at all, and the prover, whose
/// arguments are all passed in canonical form.  So a change of directory
/// strands no path.
pub proof fn lemma_directory_change_is_safe(pipeline: PipelineView)
    ensures
        pipeline.invocation().required_dir == match pipeline.phase {
            Phase::ConstTree | Phase::ConstTreeRetry => Some(pipeline.request.output_dir),
            Phase::Proof => Some(pipeline.layout().proof_output_dir),
            _ => None,
        },
        pipeline.invocation().working_dir is Some <==> pipeline.phase == Phase::InstallDependencies
            || pipeline.phase == Phase::Proof,
        pipeline.phase == Phase::InstallDependencies ==> pipeline.invocation().args =~= seq![
            "install"@,
        ],
        pipeline.phase == Phase::Proof ==> pipeline.invocation().canonicalize_args
            && pipeline.invocation().working_dir == Some(pipeline.request.output_dir),
        pipeline.invocation().canonicalize_args <==> pipeline.phase == Phase::Proof,
        !pipeline.invocation().capture_output,
{
}

/// One run of the proof generation pipeline, at some phase.
#[derive(Debug)]
pub struct Pipeline {
    tools: Toolchain,
    request: ProofRequest,
    format: ConstTreeFormat,
    layout: ArtifactLayout,
    phase: Phase,
}

/// The pipeline after one outcome was taken in.
#[derive(Debug)]
pub enum Progress {
    /// The run goes on; the pipeline is at its next phase.
    Continue(Pipeline),
    /// The run has ended, with the output files or with the error.
    Finished(Result<OutputFiles, Error>),
}

impl View for Pipeline {
    type V = PipelineView;

    closed spec fn view(&self) -> PipelineView {
        PipelineView {
            tools: self.tools@,
            request: self.request@,
            format: self.format,
            phase: self.phase,
        }
    }
}

fn include_option(dir: &str) -> (flag: String)
    ensures
        flag@ == include_flag(dir@),
{
    let mut flag = String::from_str("-I");
    flag.append(dir);
    flag
}

impl Pipeline {
    /// The stored layout is the one that belongs to the output directory.
    #[verifier::type_invariant]
    spec fn consistent(self) -> bool {
        self.layout@ == layout_of(self.request.output_dir@, self.format)
    }

    /// A run for `request` that is about to make its first attempt at the
    /// constant tree, which is stored as a binary blob.
    pub fn new(tools: Toolchain, request: ProofRequest) -> (pipeline: Pipeline)
        ensures
            pipeline@ == PipelineView::fresh(tools@, request@),
    {
        Pipeline::with_format(tools, request, ConstTreeFormat::Binary)
    }

    /// A run for `request` that stores the constant tree in `format`.
    pub fn with_format(
        tools: Toolchain,
        request: ProofRequest,
        format: ConstTreeFormat,
    ) -> (pipeline: Pipeline)
        ensures
            pipeline@ == (PipelineView { format, ..PipelineView::fresh(tools@, request@) }),
    {
        let layout = ArtifactLayout::with_format(request.output_dir.as_str(), format);
        Pipeline { tools, request, format, layout, phase: Phase::ConstTree }
    }

    /// The phase whose command is to be launched next.
    pub fn phase(&self) -> (phase: Phase)
        ensures
            phase == self@.phase,
    {
        self.phase
    }

    /// The artifact layout of this run.
    pub fn layout(&self) -> (layout: &ArtifactLayout)
        ensures
            layout@ == self@.layout(),
    {
        proof {
            use_type_invariant(self);
        }
        &self.layout
    }

    /// The command of the current phase.
    pub fn invocation(&self) -> (inv: Invocation)
        ensures
            inv@ == self@.invocation(),
    {
        proof {
            use_type_invariant(self);
        }
        match self.phase {
            Phase::ConstTree => self.consttree_command(),
            Phase::InstallDependencies => self.install_command(),
            Phase::ConstTreeRetry => self.consttree_command(),
            Phase::StarkInfo => self.starkinfo_command(),
            Phase::CHelpersGen => self.chelpers_command(),
            Phase::CHelpersCompile => self.compile_command(),
            Phase::Proof => self.proof_command(),
        }
    }

    /// Takes in the outcome of the current phase's command and decides how
    /// the run goes on.
    pub fn advance(self, outcome: Outcome) -> (progress: Progress)
        ensures
            match step(self@.phase, outcome) {
                Step::Continue(next) => progress matches Progress::Continue(pipeline)
                    && pipeline@ == self@.at(next),
                Step::Succeed => progress matches Progress::Finished(Ok(files)) && files@
                    == self@.layout().output_files(),
                Step::Fail(error) => progress == Progress::Finished(Err(error)),
            },
    {
        proof {
            use_type_invariant(&self);
        }
        let phase = self.phase;
        match phase.stage_of().conclude(outcome) {
            Ok(_) => match phase.next() {
                Some(next) => Progress::Continue(Pipeline { phase: next, ..self }),
                None => Progress::Finished(Ok(self.layout.output_files())),
            },
            Err(error) => match (phase, error) {
                (Phase::ConstTree, Error::ConstTreeGen(_)) => Progress::Continue(
                    Pipeline { phase: Phase::InstallDependencies, ..self },
                ),
                (_, error) => Progress::Finished(Err(error)),
            },
        }
    }

    fn consttree_command(&self) -> (inv: Invocation)
        ensures
            inv@ == consttree_invocation(self.tools@, self.request@, self.layout@),
    {
        let script = join(self.tools.pil_stark_src.as_str(), BUILD_CONSTTREE_JS);
        let inv = node_command().arg(script.as_str()).arg("-c").arg(
            self.request.constants_bin.as_str(),
        ).arg("-j").arg(self.request.pil_json.as_str()).arg("-s").arg(
            self.request.starkstruct_json.as_str(),
        ).arg("-t").arg(self.layout.consttree.as_str()).arg("-v").arg(
            self.layout.verification_key_json.as_str(),
        ).require_dir(self.request.output_dir.as_str());
        assert(inv@.args =~= consttree_invocation(
            self.tools@,
            self.request@,
            self.layout@,
        ).args);
        inv
    }

    fn install_command(&self) -> (inv: Invocation)
        ensures
            inv@ == install_invocation(self.tools@),
    {
        let inv = Invocation::new(NPM).arg("install").current_dir(
            self.tools.pil_stark_root.as_str(),
        );
        assert(inv@.args =~= install_invocation(self.tools@).args);
        inv
    }

    fn starkinfo_command(&self) -> (inv: Invocation)
        ensures
            inv@ == starkinfo_invocation(self.tools@, self.request@, self.layout@),
    {
        let script = join(self.tools.pil_stark_src.as_str(), GEN_STARKINFO_JS);
        let inv = node_command().arg(script.as_str()).arg("-j").arg(
            self.request.pil_json.as_str(),
        ).arg("-s").arg(self.request.starkstruct_json.as_str()).arg("-i").arg(
            self.layout.starkinfo_json.as_str(),
        );
        assert(inv@.args =~= starkinfo_invocation(
            self.tools@,
            self.request@,
            self.layout@,
        ).args);
        inv
    }

    fn chelpers_command(&self) -> (inv: Invocation)
        ensures
            inv@ == chelpers_invocation(self.tools@, self.layout@),
    {
        let script = join(self.tools.pil_stark_src.as_str(), BUILD_CHELPERS_JS);
        let inv = node_command().arg(script.as_str()).arg("-s").arg(
            self.layout.starkinfo_json.as_str(),
        ).arg("-c").arg(self.layout.chelpers_header_dir.as_str()).arg("-C").arg("All").arg(
            "-b",
        ).arg(self.layout.chelpers_bin.as_str());
        assert(inv@.args =~= chelpers_invocation(self.tools@, self.layout@).args);
        inv
    }

    fn compile_command(&self) -> (inv: Invocation)
        ensures
            inv@ == compile_invocation(self.tools@, self.layout@),
    {
        let prover = self.tools.zkevm_prover_dir.as_str();
        let driver = join(self.tools.deps_dir.as_str(), DYNAMIC_CHELPERS_CPP);
        let headers = include_option(self.layout.chelpers_header_dir.as_str());
        let config = include_option(join(prover, "src/config").as_str());
        let starkpil = include_option(join(prover, "src/starkpil").as_str());
        let utils = include_option(join(prover, "src/utils").as_str());
        let goldilocks = include_option(join(prover, "src/goldilocks/src").as_str());
        let rapidsnark = include_option(join(prover, "src/rapidsnark").as_str());
        let inv = Invocation::new(CXX).arg("-std=c++17").arg("-shared").arg("-fPIC").arg(
            "-fopenmp",
        ).arg("-mavx2").arg("-O3").arg("-DNOMINMAX").arg("-o").arg(
            self.layout.dynamic_chelpers.as_str(),
        ).arg(driver.as_str()).arg(headers.as_str()).arg(config.as_str()).arg(
            starkpil.as_str(),
        ).arg(utils.as_str()).arg(goldilocks.as_str()).arg(rapidsnark.as_str());
        assert(inv@.args =~= compile_invocation(self.tools@, self.layout@).args);
        inv
    }

    fn proof_command(&self) -> (inv: Invocation)
        ensures
            inv@ == proof_invocation(self.tools@, self.request@, self.layout@),
    {
        let prover = join(self.tools.zkevm_prover_dir.as_str(), PROVER_BINARY);
        let inv = Invocation::new(prover.as_str()).arg(self.request.constants_bin.as_str()).arg(
            self.layout.consttree.as_str(),
        ).arg(self.layout.starkinfo_json.as_str()).arg(self.request.commits_bin.as_str()).arg(
            self.layout.chelpers_bin.as_str(),
        ).arg(self.layout.dynamic_chelpers.as_str()).arg(
            self.layout.verification_key_json.as_str(),
        ).with_canonical_args().current_dir(self.request.output_dir.as_str()).require_dir(
            self.layout.proof_output_dir.as_str(),
        );
        assert(inv@.args =~= proof_invocation(self.tools@, self.request@, self.layout@).args);
        inv
    }
}

} // verus!
