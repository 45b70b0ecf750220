//! Where the external tool trees are found.

use vstd::prelude::*;
use vstd::string::*;
use crate::path::{join, joined};

verus! {

/// Name of the environment variable that overrides the tool directory.
pub const DEPS_ENV_VAR: &'static str = "PIL_STARK_PROVER_DEPS";

/// Directory of the constraint tool tree, relative to the tool directory.
pub const PIL_STARK_DIR: &'static str = "pil-stark";

/// Directory of the scripts, relative to the constraint tool tree.
pub const PIL_STARK_SRC_DIR: &'static str = "src";

/// Directory of the prover tree, relative to the tool directory.
pub const ZKEVM_PROVER_DIR: &'static str = "zkevm-prover";

/// The directory that holds the external tool trees: the override wherever
/// one is given, else the default location.
pub open spec fn resolved_deps_dir(
    override_dir: Option<String>,
    default_dir: Seq<char>,
) -> Seq<char> {
    match override_dir {
        Some(dir) => dir@,
        None => default_dir,
    }
}

/// Resolves the directory that holds the external tool trees.
///
/// An override is taken as it is.  Without one the default location is used,
/// which then has to be a directory: `default_is_dir` says whether it is.
/// With neither there is nothing to resolve, and the caller must not ask.
pub fn deps_dir(
    override_dir: Option<String>,
    default_dir: &str,
    default_is_dir: bool,
) -> (dir: String)
    requires
        override_dir is Some || default_is_dir,
    ensures
        dir@ == resolved_deps_dir(override_dir, default_dir@),
{
    match override_dir {
        Some(dir) => dir,
        None => String::from_str(default_dir),
    }
}

/// The locations inside the tool directory that the stages refer to.
#[derive(Clone, Debug, PartialEq, Eq)]
pub struct Toolchain {
    /// The tool directory itself.
    pub deps_dir: String,
    /// Root of the constraint tool tree; dependencies are installed from here.
    pub pil_stark_root: String,
    /// Directory of the constraint tool's scripts.
    pub pil_stark_src: String,
    /// Root of the prover tree.
    pub zkevm_prover_dir: String,
}

/// Mathematical content of a [`Toolchain`].
pub struct ToolchainView {
    pub deps_dir: Seq<char>,
    pub pil_stark_root: Seq<char>,
    pub pil_stark_src: Seq<char>,
    pub zkevm_prover_dir: Seq<char>,
}

impl View for Toolchain {
    type V = ToolchainView;

    open spec fn view(&self) -> ToolchainView {
        ToolchainView {
            deps_dir: self.deps_dir@,
            pil_stark_root: self.pil_stark_root@,
            pil_stark_src: self.pil_stark_src@,
            zkevm_prover_dir: self.zkevm_prover_dir@,
        }
    }
}

/// The tool locations that belong to a tool directory.
pub open spec fn toolchain_of(deps_dir: Seq<char>) -> ToolchainView {
    ToolchainView {
        deps_dir,
        pil_stark_root: joined(deps_dir, PIL_STARK_DIR@),
        pil_stark_src: joined(joined(deps_dir, PIL_STARK_DIR@), PIL_STARK_SRC_DIR@),
        zkevm_prover_dir: joined(deps_dir, ZKEVM_PROVER_DIR@),
    }
}

impl Toolchain {
    /// The tool locations under `deps_dir`.
    pub fn new(deps_dir: &str) -> (tools: Toolchain)
        ensures
            tools@ == toolchain_of(deps_dir@),
    {
        let pil_stark_root = join(deps_dir, PIL_STARK_DIR);
        let pil_stark_src = join(pil_stark_root.as_str(), PIL_STARK_SRC_DIR);
        Toolchain {
            deps_dir: String::from_str(deps_dir),
            pil_stark_root,
            pil_stark_src,
            zkevm_prover_dir: join(deps_dir, ZKEVM_PROVER_DIR),
        }
    }
}

} // verus!
