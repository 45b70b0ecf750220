//! Where every artifact of a pipeline run lives under the output directory.

use vstd::prelude::*;
use vstd::string::*;
use crate::path::{dir_prefix, join, joined};

verus! {

/// File name of the verification key document.
pub const VERIFICATION_KEY_JSON: &'static str = "verification_key.json";

/// File name of the constant tree when it is stored as a binary blob.
pub const CONSTTREE_BIN: &'static str = "consttree.bin";

/// File name of the constant tree when it is stored as a JSON document.
pub const CONSTTREE_JSON: &'static str = "consttree.json";

/// File name of the stark-info document.
pub const STARKINFO_JSON: &'static str = "starkinfo.json";

/// File name of the helper binary blob.
pub const CHELPERS_BIN: &'static str = "chelpers.bin";

/// Name of the directory that receives the generated helper sources and headers.
pub const CHELPERS_DIR: &'static str = "chelpers";

/// File name of the compiled helper library.
pub const DYNAMIC_CHELPERS_SO: &'static str = "dynamic_chelpers.so";

/// Directory, relative to the output directory, into which the prover writes.
pub const PROOF_OUTPUT_DIR: &'static str = "runtime/output";

/// File name of the proof document inside the proof output directory.
pub const PROOF_JSON: &'static str = "jProof.json";

/// The proof document, relative to the output directory.
pub const PROOF_JSON_PATH: &'static str = "runtime/output/jProof.json";

/// How the constant tree intermediate is stored.
#[derive(Clone, Copy, Debug, PartialEq, Eq, Structural)]
pub enum ConstTreeFormat {
    Binary,
    Json,
}

/// File name of the constant tree in the given format.
pub open spec fn consttree_name(format: ConstTreeFormat) -> Seq<char> {
    match format {
        ConstTreeFormat::Binary => CONSTTREE_BIN@,
        ConstTreeFormat::Json => CONSTTREE_JSON@,
    }
}

/// The paths a caller needs after a successful run.
#[derive(Clone, Debug, PartialEq, Eq)]
pub struct OutputFiles {
    pub verification_key_json: String,
    pub starkinfo_json: String,
    pub proof_json: String,
}

/// Mathematical content of [`OutputFiles`].
pub struct OutputFilesView {
    pub verification_key_json: Seq<char>,
    pub starkinfo_json: Seq<char>,
    pub proof_json: Seq<char>,
}

impl View for OutputFiles {
    type V = OutputFilesView;

    open spec fn view(&self) -> OutputFilesView {
        OutputFilesView {
            verification_key_json: self.verification_key_json@,
            starkinfo_json: self.starkinfo_json@,
            proof_json: self.proof_json@,
        }
    }
}

/// Every intermediate and final artifact path of one pipeline run.
#[derive(Clone, Debug, PartialEq, Eq)]
pub struct ArtifactLayout {
    pub verification_key_json: String,
    pub consttree: String,
    pub starkinfo_json: String,
    pub chelpers_bin: String,
    pub chelpers_header_dir: String,
    pub dynamic_chelpers: String,
    pub proof_output_dir: String,
    pub proof_json: String,
}

/// Mathematical content of [`ArtifactLayout`].
pub struct ArtifactLayoutView {
    pub verification_key_json: Seq<char>,
    pub consttree: Seq<char>,
    pub starkinfo_json: Seq<char>,
    pub chelpers_bin: Seq<char>,
    pub chelpers_header_dir: Seq<char>,
    pub dynamic_chelpers: Seq<char>,
    pub proof_output_dir: Seq<char>,
    pub proof_json: Seq<char>,
}

impl View for ArtifactLayout {
    type V = ArtifactLayoutView;

    open spec fn view(&self) -> ArtifactLayoutView {
        ArtifactLayoutView {
            verification_key_json: self.verification_key_json@,
            consttree: self.consttree@,
            starkinfo_json: self.starkinfo_json@,
            chelpers_bin: self.chelpers_bin@,
            chelpers_header_dir: self.chelpers_header_dir@,
            dynamic_chelpers: self.dynamic_chelpers@,
            proof_output_dir: self.proof_output_dir@,
            proof_json: self.proof_json@,
        }
    }
}

impl ArtifactLayoutView {
    /// All artifact paths, in a fixed order.
    pub open spec fn paths(self) -> Seq<Seq<char>> {
        seq![
            self.verification_key_json,
            self.consttree,
            self.starkinfo_json,
            self.chelpers_bin,
            self.chelpers_header_dir,
            self.dynamic_chelpers,
            self.proof_output_dir,
            self.proof_json,
        ]
    }

    /// The part of the layout that is handed back to the caller.
    pub open spec fn output_files(self) -> OutputFilesView {
        OutputFilesView {
            verification_key_json: self.verification_key_json,
            starkinfo_json: self.starkinfo_json,
            proof_json: self.proof_json,
        }
    }
}

/// The artifact names relative to the output directory, in the order of
/// [`ArtifactLayoutView::paths`].
pub open spec fn artifact_names(format: ConstTreeFormat) -> Seq<Seq<char>> {
    seq![
        VERIFICATION_KEY_JSON@,
        consttree_name(format),
        STARKINFO_JSON@,
        CHELPERS_BIN@,
        CHELPERS_DIR@,
        DYNAMIC_CHELPERS_SO@,
        PROOF_OUTPUT_DIR@,
        PROOF_JSON_PATH@,
    ]
}

/// The layout that belongs to an output directory: every artifact has a fixed
/// name directly under it.
pub open spec fn layout_of(root: Seq<char>, format: ConstTreeFormat) -> ArtifactLayoutView {
    ArtifactLayoutView {
        verification_key_json: joined(root, VERIFICATION_KEY_JSON@),
        consttree: joined(root, consttree_name(format)),
        starkinfo_json: joined(root, STARKINFO_JSON@),
        chelpers_bin: joined(root, CHELPERS_BIN@),
        chelpers_header_dir: joined(root, CHELPERS_DIR@),
        dynamic_chelpers: joined(root, DYNAMIC_CHELPERS_SO@),
        proof_output_dir: joined(root, PROOF_OUTPUT_DIR@),
        proof_json: joined(root, PROOF_JSON_PATH@),
    }
}

/// The artifact names, character by character.
proof fn lemma_name_contents()
    ensures
        VERIFICATION_KEY_JSON@ =~= seq![
            'v', 'e', 'r', 'i', 'f', 'i', 'c', 'a', 't', 'i', 'o', 'n', '_', 'k', 'e', 'y', '.',
            'j', 's', 'o', 'n',
        ],
        CONSTTREE_BIN@ =~= seq!['c', 'o', 'n', 's', 't', 't', 'r', 'e', 'e', '.', 'b', 'i', 'n'],
        CONSTTREE_JSON@ =~= seq![
            'c', 'o', 'n', 's', 't', 't', 'r', 'e', 'e', '.', 'j', 's', 'o', 'n',
        ],
        STARKINFO_JSON@ =~= seq![
            's', 't', 'a', 'r', 'k', 'i', 'n', 'f', 'o', '.', 'j', 's', 'o', 'n',
        ],
        CHELPERS_BIN@ =~= seq!['c', 'h', 'e', 'l', 'p', 'e', 'r', 's', '.', 'b', 'i', 'n'],
        CHELPERS_DIR@ =~= seq!['c', 'h', 'e', 'l', 'p', 'e', 'r', 's'],
        DYNAMIC_CHELPERS_SO@ =~= seq![
            'd', 'y', 'n', 'a', 'm', 'i', 'c', '_', 'c', 'h', 'e', 'l', 'p', 'e', 'r', 's', '.',
            's', 'o',
        ],
        PROOF_OUTPUT_DIR@ =~= seq![
            'r', 'u', 'n', 't', 'i', 'm', 'e', '/', 'o', 'u', 't', 'p', 'u', 't',
        ],
        PROOF_JSON@ =~= seq!['j', 'P', 'r', 'o', 'o', 'f', '.', 'j', 's', 'o', 'n'],
        PROOF_JSON_PATH@ =~= seq![
            'r', 'u', 'n', 't', 'i', 'm', 'e', '/', 'o', 'u', 't', 'p', 'u', 't', '/', 'j', 'P',
            'r', 'o', 'o', 'f', '.', 'j', 's', 'o', 'n',
        ],
{
    reveal_strlit("verification_key.json");
    reveal_strlit("consttree.bin");
    reveal_strlit("consttree.json");
    reveal_strlit("starkinfo.json");
    reveal_strlit("chelpers.bin");
    reveal_strlit("chelpers");
    reveal_strlit("dynamic_chelpers.so");
    reveal_strlit("runtime/output");
    reveal_strlit("jProof.json");
    reveal_strlit("runtime/output/jProof.json");
}

/// The proof document lies in the proof output directory.
pub proof fn lemma_proof_json_in_output_dir(root: Seq<char>)
    ensures
        joined(joined(root, PROOF_OUTPUT_DIR@), PROOF_JSON@) == joined(root, PROOF_JSON_PATH@),
{
    lemma_name_contents();
    let dir = joined(root, PROOF_OUTPUT_DIR@);
    assert(dir == dir_prefix(root) + PROOF_OUTPUT_DIR@);
    assert(dir.last() == 't');
    assert(PROOF_JSON_PATH@ =~= PROOF_OUTPUT_DIR@.push('/') + PROOF_JSON@);
    assert(joined(dir, PROOF_JSON@) =~= joined(root, PROOF_JSON_PATH@));
}

/// Every artifact path is the output directory, as a prefix, followed by the
/// artifact's fixed name: the names do not depend on the directory.
pub proof fn lemma_artifact_names_fixed(root: Seq<char>, format: ConstTreeFormat)
    ensures
        layout_of(root, format).paths().len() == 8,
        artifact_names(format).len() == 8,
        forall|i: int|
            0 <= i < 8 ==> #[trigger] layout_of(root, format).paths()[i] == dir_prefix(root)
                + artifact_names(format)[i],
{
    lemma_names_relative(format);
}

/// No two artifacts of one layout share a path.
pub proof fn lemma_artifacts_distinct(root: Seq<char>, format: ConstTreeFormat)
    ensures
        forall|i: int, j: int|
            0 <= i < j < 8 ==> layout_of(root, format).paths()[i] != layout_of(
                root,
                format,
            ).paths()[j],
{
    let paths = layout_of(root, format).paths();
    let names = artifact_names(format);
    lemma_artifact_names_fixed(root, format);
    lemma_names_distinct(format);
    assert forall|i: int, j: int| 0 <= i < j < 8 implies paths[i] != paths[j] by {
        if paths[i] == paths[j] {
            lemma_prefix_cancel(dir_prefix(root), names[i], names[j]);
        }
    }
}

/// Layouts of output directories that differ as prefixes share no path:
/// no artifact of one run is an artifact of the other.
pub proof fn lemma_layouts_disjoint(
    first: Seq<char>,
    second: Seq<char>,
    first_format: ConstTreeFormat,
    second_format: ConstTreeFormat,
)
    requires
        dir_prefix(first) != dir_prefix(second),
    ensures
        forall|i: int, j: int|
            0 <= i < 8 && 0 <= j < 8 ==> layout_of(first, first_format).paths()[i] != layout_of(
                second,
                second_format,
            ).paths()[j],
{
    let first_paths = layout_of(first, first_format).paths();
    let second_paths = layout_of(second, second_format).paths();
    let first_names = artifact_names(first_format);
    let second_names = artifact_names(second_format);
    lemma_artifact_names_fixed(first, first_format);
    lemma_artifact_names_fixed(second, second_format);
    assert forall|i: int, j: int| 0 <= i < 8 && 0 <= j < 8 implies first_paths[i]
        != second_paths[j] by {
        let p = dir_prefix(first);
        let q = dir_prefix(second);
        if first_paths[i] == second_paths[j] {
            assert(p + first_names[i] == q + second_names[j]);
            if p.len() <= q.len() {
                lemma_no_name_ends_another(p, first_names[i], first_format, i, q, second_names[j],
                    second_format, j);
            } else {
                lemma_no_name_ends_another(q, second_names[j], second_format, j, p, first_names[i],
                    first_format, i);
            }
            assert forall|k: int| 0 <= k < p.len() implies p[k] == q[k] by {
                assert(p[k] == (p + first_names[i])[k]);
                assert(q[k] == (q + second_names[j])[k]);
            }
            assert(p =~= q);
        }
    }
}

/// No artifact name is what remains of another one after a directory was
/// taken off its front.  So where an artifact under the directory `outer`
/// and one under the directory `inner`, which is no shorter, share a path,
/// the two directories are equally long.
proof fn lemma_no_name_ends_another(
    outer: Seq<char>,
    outer_name: Seq<char>,
    outer_format: ConstTreeFormat,
    i: int,
    inner: Seq<char>,
    inner_name: Seq<char>,
    inner_format: ConstTreeFormat,
    j: int,
)
    requires
        0 <= i < 8,
        0 <= j < 8,
        outer_name == artifact_names(outer_format)[i],
        inner_name == artifact_names(inner_format)[j],
        outer.len() <= inner.len(),
        inner.len() > 0 ==> inner.last() == '/',
        outer + outer_name == inner + inner_name,
    ensures
        outer.len() == inner.len(),
{
    if outer.len() < inner.len() {
        let cut = inner.len() - outer.len();
        let whole = outer + outer_name;
        assert(outer_name.len() == cut + inner_name.len()) by {
            assert(whole.len() == outer.len() + outer_name.len());
            assert((inner + inner_name).len() == inner.len() + inner_name.len());
        }
        assert(outer_name[cut - 1] == whole[inner.len() - 1]);
        assert(whole[inner.len() - 1] == inner[inner.len() - 1]);
        assert(outer_name[cut - 1] == '/');
        lemma_separator_positions(outer_format, i, cut - 1);
        lemma_name_lengths(inner_format, j);
        lemma_name_lengths(outer_format, i);
    }
}

/// The lengths of the artifact names.
proof fn lemma_name_lengths(format: ConstTreeFormat, i: int)
    requires
        0 <= i < 8,
    ensures
        artifact_names(format)[i].len() == if i == 0 {
            21nat
        } else if i == 1 {
            if format == ConstTreeFormat::Binary {
                13nat
            } else {
                14nat
            }
        } else if i == 2 {
            14nat
        } else if i == 3 {
            12nat
        } else if i == 4 {
            8nat
        } else if i == 5 {
            19nat
        } else if i == 6 {
            14nat
        } else {
            26nat
        },
{
    lemma_name_contents();
}

/// Where the artifact names hold a separator: only the proof output
/// directory and the proof document do.
proof fn lemma_separator_positions(format: ConstTreeFormat, i: int, at: int)
    requires
        0 <= i < 8,
        0 <= at < artifact_names(format)[i].len(),
        artifact_names(format)[i][at] == '/',
    ensures
        (i == 6 && at == 7) || (i == 7 && (at == 7 || at == 14)),
{
    lemma_name_contents();
}

/// None of the artifact names is rooted or empty.
proof fn lemma_names_relative(format: ConstTreeFormat)
    ensures
        forall|i: int|
            0 <= i < 8 ==> (#[trigger] artifact_names(format)[i]).len() > 0 && artifact_names(
                format,
            )[i][0] != '/',
{
    lemma_name_contents();
}

/// The artifact names are pairwise different.
proof fn lemma_names_distinct(format: ConstTreeFormat)
    ensures
        forall|i: int, j: int|
            0 <= i < j < 8 ==> artifact_names(format)[i] != artifact_names(format)[j],
{
    lemma_name_contents();
    let names = artifact_names(format);
    assert(names[0].len() == 21);
    assert(names[1].len() == 13 || names[1].len() == 14);
    assert(names[1][0] == 'c');
    assert(names[2].len() == 14 && names[2][0] == 's');
    assert(names[3].len() == 12);
    assert(names[4].len() == 8);
    assert(names[5].len() == 19);
    assert(names[6].len() == 14 && names[6][0] == 'r');
    assert(names[7].len() == 26);
}

/// Two sequences that agree after the same prefix was put in front are equal.
proof fn lemma_prefix_cancel(prefix: Seq<char>, a: Seq<char>, b: Seq<char>)
    requires
        prefix + a == prefix + b,
    ensures
        a == b,
{
    assert(a =~= (prefix + a).subrange(prefix.len() as int, (prefix + a).len() as int));
    assert(b =~= (prefix + b).subrange(prefix.len() as int, (prefix + b).len() as int));
}

impl ArtifactLayout {
    /// The layout under `output_dir`, with the constant tree stored as a
    /// binary blob.
    pub fn new(output_dir: &str) -> (layout: ArtifactLayout)
        ensures
            layout@ == layout_of(output_dir@, ConstTreeFormat::Binary),
    {
        ArtifactLayout::with_format(output_dir, ConstTreeFormat::Binary)
    }

    /// The layout under `output_dir` for the given constant tree format.
    pub fn with_format(output_dir: &str, format: ConstTreeFormat) -> (layout: ArtifactLayout)
        ensures
            layout@ == layout_of(output_dir@, format),
    {
        let consttree = match format {
            ConstTreeFormat::Binary => join(output_dir, CONSTTREE_BIN),
            ConstTreeFormat::Json => join(output_dir, CONSTTREE_JSON),
        };
        let proof_output_dir = join(output_dir, PROOF_OUTPUT_DIR);
        let proof_json = join(proof_output_dir.as_str(), PROOF_JSON);
        proof {
            lemma_proof_json_in_output_dir(output_dir@);
        }
        ArtifactLayout {
            verification_key_json: join(output_dir, VERIFICATION_KEY_JSON),
            consttree,
            starkinfo_json: join(output_dir, STARKINFO_JSON),
            chelpers_bin: join(output_dir, CHELPERS_BIN),
            chelpers_header_dir: join(output_dir, CHELPERS_DIR),
            dynamic_chelpers: join(output_dir, DYNAMIC_CHELPERS_SO),
            proof_output_dir,
            proof_json,
        }
    }

    /// The paths handed back to the caller after a successful run.
    pub fn output_files(&self) -> (files: OutputFiles)
        ensures
            files@ == self@.output_files(),
    {
        OutputFiles {
            verification_key_json: self.verification_key_json.clone(),
            starkinfo_json: self.starkinfo_json.clone(),
            proof_json: self.proof_json.clone(),
        }
    }
}

} // verus!
