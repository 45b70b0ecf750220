//! Description of one external command, ready to be launched by the caller.

use vstd::prelude::*;
use vstd::string::*;
use crate::text::{decimal, decimal_string, format_separated, separated};

verus! {

/// Upper bound, in megabytes, of the heap the script interpreter may use.
pub const MAX_NODE_MEM: u32 = 1024 * 16;

/// Name of the script interpreter.
pub const NODE: &'static str = "node";

/// The interpreter option that sets its heap limit, without the value.
pub const NODE_MEMORY_OPTION: &'static str = "--max-old-space-size=";

/// What marks the start of a logged command line.
pub const COMMAND_LINE_MARK: &'static str = "\u{2192} ";

/// One external command: what to launch, with which arguments, and what the
/// launcher has to arrange beforehand.
#[derive(Clone, Debug, PartialEq, Eq)]
pub struct Invocation {
    /// The executable.
    pub program: String,
    /// The arguments, in order.
    pub args: Vec<String>,
    /// Working directory of the process; the caller's own when absent.
    pub working_dir: Option<String>,
    /// A directory that must exist when the process starts; it is created,
    /// with its parents, before the launch.
    pub required_dir: Option<String>,
    /// Whether every argument names an existing file that has to be passed
    /// in canonical, absolute form.
    pub canonicalize_args: bool,
    /// Whether the standard output is read line by line while the process runs.
    pub capture_output: bool,
}

/// Mathematical content of an [`Invocation`].
pub struct InvocationView {
    pub program: Seq<char>,
    pub args: Seq<Seq<char>>,
    pub working_dir: Option<Seq<char>>,
    pub required_dir: Option<Seq<char>>,
    pub canonicalize_args: bool,
    pub capture_output: bool,
}

/// The text of an optional string.
pub open spec fn text_of(s: Option<String>) -> Option<Seq<char>> {
    match s {
        Some(s) => Some(s@),
        None => None,
    }
}

impl View for Invocation {
    type V = InvocationView;

    open spec fn view(&self) -> InvocationView {
        InvocationView {
            program: self.program@,
            args: self.args.deep_view(),
            working_dir: text_of(self.working_dir),
            required_dir: text_of(self.required_dir),
            canonicalize_args: self.canonicalize_args,
            capture_output: self.capture_output,
        }
    }
}

impl InvocationView {
    /// A command without arguments that runs in the caller's directory.
    pub open spec fn plain(program: Seq<char>) -> InvocationView {
        InvocationView {
            program,
            args: Seq::empty(),
            working_dir: None,
            required_dir: None,
            canonicalize_args: false,
            capture_output: false,
        }
    }

    /// The line that announces the command: a mark, the program, a space and
    /// the arguments separated by single spaces.
    pub open spec fn command_line(self) -> Seq<char> {
        COMMAND_LINE_MARK@ + self.program + " "@ + separated(self.args, " "@)
    }
}

/// The interpreter option that limits the heap to [`MAX_NODE_MEM`].
pub open spec fn node_memory_flag() -> Seq<char> {
    NODE_MEMORY_OPTION@ + decimal(MAX_NODE_MEM as nat)
}

/// Written out, the heap limit option reads `--max-old-space-size=16384`.
pub proof fn lemma_node_memory_flag()
    ensures
        node_memory_flag() == "--max-old-space-size=16384"@,
{
    reveal_strlit("--max-old-space-size=");
    reveal_strlit("--max-old-space-size=16384");
    reveal_with_fuel(decimal, 6);
    assert(decimal(16384) =~= seq!['1', '6', '3', '8', '4']);
    assert(node_memory_flag() =~= "--max-old-space-size=16384"@);
}

/// The script interpreter with its heap limit; the script and its arguments
/// are still to follow.
pub open spec fn node_invocation() -> InvocationView {
    InvocationView { args: seq![node_memory_flag()], ..InvocationView::plain(NODE@) }
}

impl Invocation {
    /// A command that launches `program` without arguments.
    pub fn new(program: &str) -> (inv: Invocation)
        ensures
            inv@ == InvocationView::plain(program@),
    {
        let inv = Invocation {
            program: String::from_str(program),
            args: Vec::new(),
            working_dir: None,
            required_dir: None,
            canonicalize_args: false,
            capture_output: false,
        };
        assert(inv.args.deep_view() =~= Seq::empty());
        inv
    }

    /// Appends one argument.
    pub fn arg(self, arg: &str) -> (inv: Invocation)
        ensures
            inv@ == (InvocationView { args: self@.args.push(arg@), ..self@ }),
    {
        let mut inv = self;
        inv.args.push(String::from_str(arg));
        assert(inv.args.deep_view() =~= self.args.deep_view().push(arg@));
        inv
    }

    /// Sets the working directory of the process.
    pub fn current_dir(self, dir: &str) -> (inv: Invocation)
        ensures
            inv@ == (InvocationView { working_dir: Some(dir@), ..self@ }),
    {
        let mut inv = self;
        inv.working_dir = Some(String::from_str(dir));
        inv
    }

    /// Asks for `dir` to be created before the launch.
    pub fn require_dir(self, dir: &str) -> (inv: Invocation)
        ensures
            inv@ == (InvocationView { required_dir: Some(dir@), ..self@ }),
    {
        let mut inv = self;
        inv.required_dir = Some(String::from_str(dir));
        inv
    }

    /// Asks for every argument to be passed in canonical form.
    pub fn with_canonical_args(self) -> (inv: Invocation)
        ensures
            inv@ == (InvocationView { canonicalize_args: true, ..self@ }),
    {
        let mut inv = self;
        inv.canonicalize_args = true;
        inv
    }

    /// Asks for the standard output to be read line by line.
    pub fn with_captured_output(self) -> (inv: Invocation)
        ensures
            inv@ == (InvocationView { capture_output: true, ..self@ }),
    {
        let mut inv = self;
        inv.capture_output = true;
        inv
    }

    /// The line that announces this command in a log.
    pub fn command_line(&self) -> (line: String)
        ensures
            line@ == self@.command_line(),
    {
        let mut line = String::from_str(COMMAND_LINE_MARK);
        line.append(self.program.as_str());
        line.append(" ");
        let args = format_separated(&self.args, " ");
        line.append(args.as_str());
        line
    }
}

/// The script interpreter with its heap limit.
pub fn node_command() -> (inv: Invocation)
    ensures
        inv@ == node_invocation(),
{
    let mut flag = String::from_str(NODE_MEMORY_OPTION);
    let limit = decimal_string(MAX_NODE_MEM);
    flag.append(limit.as_str());
    let inv = Invocation::new(NODE).arg(flag.as_str());
    assert(inv@.args =~= seq![node_memory_flag()]);
    inv
}

} // verus!
