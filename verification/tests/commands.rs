use pil_stark_prover::command::{node_command, Invocation, MAX_NODE_MEM};
use pil_stark_prover::config::{deps_dir, Toolchain};
use pil_stark_prover::text::decimal_string;

fn strings(items: &[&str]) -> Vec<String> {
    items.iter().map(|s| s.to_string()).collect()
}

#[test]
fn decimal_of_single_digits() {
    assert_eq!(decimal_string(0), "0");
    assert_eq!(decimal_string(7), "7");
    assert_eq!(decimal_string(9), "9");
}

#[test]
fn decimal_of_larger_numbers() {
    assert_eq!(decimal_string(10), "10");
    assert_eq!(decimal_string(105), "105");
    assert_eq!(decimal_string(16384), "16384");
    assert_eq!(decimal_string(1_000_000), "1000000");
    assert_eq!(decimal_string(u32::MAX), "4294967295");
}

#[test]
fn decimal_agrees_with_the_standard_library() {
    for n in [0u32, 1, 9, 10, 11, 99, 100, 101, 4095, 4096, 65535, 65536, 123456789] {
        assert_eq!(decimal_string(n), n.to_string());
    }
}

#[test]
fn node_memory_limit_is_sixteen_gigabytes() {
    assert_eq!(MAX_NODE_MEM, 16384);
}

#[test]
fn node_command_sets_the_memory_limit() {
    let node = node_command();
    assert_eq!(node.program, "node");
    assert_eq!(node.args, strings(&["--max-old-space-size=16384"]));
    assert_eq!(node.working_dir, None);
    assert_eq!(node.required_dir, None);
    assert!(!node.canonicalize_args);
    assert!(!node.capture_output);
}

#[test]
fn new_invocation_is_plain() {
    let inv = Invocation::new("g++");
    assert_eq!(
        inv,
        Invocation {
            program: "g++".to_string(),
            args: vec![],
            working_dir: None,
            required_dir: None,
            canonicalize_args: false,
            capture_output: false,
        }
    );
}

#[test]
fn arguments_are_kept_in_order() {
    let inv = Invocation::new("tool").arg("-a").arg("first").arg("-b").arg("second");
    assert_eq!(inv.program, "tool");
    assert_eq!(inv.args, strings(&["-a", "first", "-b", "second"]));
}

#[test]
fn builder_sets_one_property_at_a_time() {
    let base = Invocation::new("tool").arg("x");
    let with_dir = base.clone().current_dir("work");
    assert_eq!(with_dir, Invocation { working_dir: Some("work".to_string()), ..base.clone() });
    let with_required = base.clone().require_dir("made/first");
    assert_eq!(
        with_required,
        Invocation { required_dir: Some("made/first".to_string()), ..base.clone() }
    );
    let canonical = base.clone().with_canonical_args();
    assert_eq!(canonical, Invocation { canonicalize_args: true, ..base.clone() });
    let captured = base.clone().with_captured_output();
    assert_eq!(captured, Invocation { capture_output: true, ..base });
}

#[test]
fn command_line_separates_arguments_by_spaces() {
    let inv = node_command().arg("deps/pil-stark/src/main_genstarkinfo.js").arg("-j").arg("pil.json");
    assert_eq!(
        inv.command_line(),
        "\u{2192} node --max-old-space-size=16384 deps/pil-stark/src/main_genstarkinfo.js -j pil.json"
    );
}

#[test]
fn command_line_with_one_argument() {
    assert_eq!(Invocation::new("npm").arg("install").command_line(), "\u{2192} npm install");
}

#[test]
fn command_line_without_arguments_keeps_the_space() {
    assert_eq!(Invocation::new("true").command_line(), "\u{2192} true ");
}

#[test]
fn command_line_keeps_empty_arguments() {
    let inv = Invocation::new("tool").arg("").arg("a").arg("");
    assert_eq!(inv.command_line(), "\u{2192} tool  a ");
}

#[test]
fn command_line_ignores_everything_but_program_and_arguments() {
    let inv = Invocation::new("prover")
        .arg("a b")
        .current_dir("out")
        .require_dir("out/runtime/output")
        .with_canonical_args()
        .with_captured_output();
    assert_eq!(inv.command_line(), "\u{2192} prover a b");
}

#[test]
fn override_wins_over_the_default_directory() {
    assert_eq!(deps_dir(Some("/opt/tools".to_string()), "/build/out", true), "/opt/tools");
    assert_eq!(deps_dir(Some("/opt/tools".to_string()), "/build/out", false), "/opt/tools");
    assert_eq!(deps_dir(Some(String::new()), "/build/out", true), "");
}

#[test]
fn default_directory_is_used_without_override() {
    assert_eq!(deps_dir(None, "/build/out", true), "/build/out");
}

#[test]
fn toolchain_names_the_tool_trees() {
    let tools = Toolchain::new("/opt/deps");
    assert_eq!(tools.deps_dir, "/opt/deps");
    assert_eq!(tools.pil_stark_root, "/opt/deps/pil-stark");
    assert_eq!(tools.pil_stark_src, "/opt/deps/pil-stark/src");
    assert_eq!(tools.zkevm_prover_dir, "/opt/deps/zkevm-prover");
}

#[test]
fn toolchain_under_relative_directory() {
    let tools = Toolchain::new("deps/");
    assert_eq!(tools.deps_dir, "deps/");
    assert_eq!(tools.pil_stark_root, "deps/pil-stark");
    assert_eq!(tools.pil_stark_src, "deps/pil-stark/src");
    assert_eq!(tools.zkevm_prover_dir, "deps/zkevm-prover");
}
