use vstd::prelude::*;

use crate::languages::FileType;
use crate::plan::{text_of, Effect, FsOp, LionError, Plan, PlanSpec};
use crate::template::{template, template_text};
use crate::text::{chars_of, find_first, first_occurrence};

verus! {

/// The line that declares `dep` at the top of a source file, where the
/// language declares dependencies in the source itself.
pub open spec fn declaration(tag: FileType, dep: Seq<char>) -> Seq<char> {
    match tag {
        FileType::Py => "import "@ + dep + "\n"@,
        FileType::Cpp => "#include \""@ + dep + "/"@ + dep + ".h\"\n"@,
        _ => Seq::empty(),
    }
}

/// The language declares a dependency by a line in the source file.
pub open spec fn declares_in_source(tag: FileType) -> bool {
    tag == FileType::Py || tag == FileType::Cpp
}

/// The manifest entry for `dep`, with a wildcard version.
pub open spec fn manifest_entry(dep: Seq<char>) -> Seq<char> {
    dep + " = \"*\""@
}

pub open spec fn section_header() -> Seq<char> {
    "[dependencies]"@
}

/// `manifest` with the entry for `dep` put right after the section header
/// that starts at index `i`, and a newline added at the end.
pub open spec fn spliced(manifest: Seq<char>, i: int, dep: Seq<char>) -> Seq<char> {
    manifest.subrange(0, i) + section_header() + "\n"@ + manifest_entry(dep) + manifest.subrange(
        i + section_header().len(),
        manifest.len() as int,
    ) + "\n"@
}

/// The manifest after adding `dep`, or `None` where it has no section header.
pub open spec fn manifest_with(manifest: Seq<char>, dep: Seq<char>) -> Option<Seq<char>> {
    match first_occurrence(manifest, section_header()) {
        Some(i) => Some(spliced(manifest, i, dep)),
        None => None,
    }
}

/// The text a manifest is taken to hold: a missing one starts as the bare header.
pub open spec fn manifest_base(manifest: Option<Seq<char>>) -> Seq<char> {
    match manifest {
        Some(m) => m,
        None => section_header(),
    }
}

pub open spec fn manifest_path() -> Seq<char> {
    "Cargo.toml"@
}

pub open spec fn unsupported_notice() -> Seq<char> {
    "Format not supported for external dependencies"@
}

/// What injecting `dep` for a file `file` does, given the file's current
/// contents and the manifest's, each `None` where the file is missing.
pub open spec fn dependency_plan(
    tag: FileType,
    file: Seq<char>,
    dep: Seq<char>,
    current: Option<Seq<char>>,
    manifest: Option<Seq<char>>,
) -> PlanSpec {
    if declares_in_source(tag) {
        let body = match current {
            Some(c) => c,
            None => template_text(tag),
        };
        PlanSpec {
            effects: seq![Effect::WriteFile(file, declaration(tag, dep) + body)],
            failure: None,
        }
    } else if tag == FileType::Rs {
        match manifest_with(manifest_base(manifest), dep) {
            Some(m) => PlanSpec {
                effects: seq![
                    Effect::WriteFile(manifest_path(), m),
                    Effect::WriteFile(file, template_text(FileType::Rs)),
                ],
                failure: None,
            },
            None => PlanSpec { effects: seq![], failure: Some(LionError::MissingDependencySection) },
        }
    } else {
        PlanSpec { effects: seq![Effect::Warn(unsupported_notice())], failure: None }
    }
}

/// Adds `dep` to a manifest, right after its `[dependencies]` header; `None`
/// where the manifest has no such header.
pub fn add_to_manifest(manifest: &str, dep: &str) -> (r: Option<String>)
    ensures
        text_of(r) == manifest_with(manifest@, dep@),
{
    let header = "[dependencies]";
    let hay = chars_of(manifest);
    let pat = chars_of(header);
    match find_first(&hay, &pat) {
        None => None,
        Some(i) => {
            proof {
                reveal_strlit("[dependencies]");
                crate::text::lemma_first_from(manifest@, section_header(), 0);
            }
            let n = manifest.unicode_len();
            let before = manifest.substring_char(0, i);
            let after = manifest.substring_char(i + 14, n);
            let mut out = String::from_str(before);
            out.append(header);
            out.append("\n");
            out.append(dep);
            out.append(" = \"*\"");
            out.append(after);
            out.append("\n");
            Some(out)
        },
    }
}

/// The declaration line for `dep` in a source file of `tag`.
fn declaration_line(tag: FileType, dep: &str) -> (r: String)
    requires
        declares_in_source(tag),
    ensures
        r@ == declaration(tag, dep@),
{
    if tag == FileType::Py {
        let mut r = String::from_str("import ");
        r.append(dep);
        r.append("\n");
        r
    } else {
        let mut r = String::from_str("#include \"");
        r.append(dep);
        r.append("/");
        r.append(dep);
        r.append(".h\"\n");
        r
    }
}

/// Plans the injection of `dep` for the file at `file`. `current` is what
/// that file holds and `manifest` what `Cargo.toml` holds, `None` for a
/// missing file.
pub(crate) fn plan_dependency(
    tag: FileType,
    file: &str,
    dep: &str,
    current: Option<String>,
    manifest: Option<String>,
) -> (r: Plan)
    ensures
        r@ == dependency_plan(tag, file@, dep@, text_of(current), text_of(manifest)),
{
    let ghost want = dependency_plan(tag, file@, dep@, text_of(current), text_of(manifest));
    let mut ops: Vec<FsOp> = Vec::new();
    if tag == FileType::Py || tag == FileType::Cpp {
        let body = match current {
            Some(c) => c,
            None => template(tag),
        };
        let mut contents = declaration_line(tag, dep);
        contents.append(body.as_str());
        ops.push(FsOp::WriteFile { path: String::from_str(file), contents });
        assert(crate::plan::effects_of(ops@) =~= want.effects);
        Plan { ops, failure: None }
    } else if tag == FileType::Rs {
        let base = match manifest {
            Some(m) => m,
            None => String::from_str("[dependencies]"),
        };
        match add_to_manifest(base.as_str(), dep) {
            Some(m) => {
                ops.push(FsOp::WriteFile { path: String::from_str("Cargo.toml"), contents: m });
                ops.push(
                    FsOp::WriteFile { path: String::from_str(file), contents: template(tag) },
                );
                assert(crate::plan::effects_of(ops@) =~= want.effects);
                Plan { ops, failure: None }
            },
            None => {
                assert(crate::plan::effects_of(ops@) =~= want.effects);
                Plan { ops, failure: Some(LionError::MissingDependencySection) }
            },
        }
    } else {
        ops.push(FsOp::Warn(String::from_str("Format not supported for external dependencies")));
        assert(crate::plan::effects_of(ops@) =~= want.effects);
        Plan { ops, failure: None }
    }
}

} // verus!
