use vstd::prelude::*;

use crate::engine::{fresh, run_steps, Execution, Platform};
use crate::inject::{dependency_plan, plan_dependency};
use crate::plan::{effects_of, text_of, Effect, FsOp, LionError, Plan, PlanSpec};
use crate::template::{template, template_text};
use crate::text::{chars_of, find_start_after_last, start_after_last};

verus! {

/// What the user asked the tool to do.
#[derive(Clone, Copy, Debug, PartialEq, Eq, Structural)]
pub enum MyCommand {
    Empty,
    Help,
    New,
    Dep,
    Run,
    Proj,
}

/// The closed set of languages the tool knows, plus a catch-all for any
/// other extension.
#[derive(Clone, Copy, Debug, PartialEq, Eq, Structural)]
pub enum FileType {
    Placeholder,
    Cpp,
    Rs,
    C,
    Java,
    Go,
    Py,
}

/// The language named by a file extension (given without its dot).
pub open spec fn resolve_spec(ext: Seq<char>) -> FileType {
    if ext == "cpp"@ {
        FileType::Cpp
    } else if ext == "rs"@ {
        FileType::Rs
    } else if ext == "c"@ {
        FileType::C
    } else if ext == "go"@ {
        FileType::Go
    } else if ext == "py"@ {
        FileType::Py
    } else if ext == "java"@ {
        FileType::Java
    } else {
        FileType::Placeholder
    }
}

/// Whether two strings hold the same characters.
fn same_text(a: &str, b: &str) -> (r: bool)
    ensures
        r == (a@ == b@),
{
    let x = String::from_str(a);
    let y = String::from_str(b);
    x == y
}

/// Maps an extension such as `"rs"` to its language; any other extension
/// gives `FileType::Placeholder`.
pub fn resolve(extension: &str) -> (r: FileType)
    ensures
        r == resolve_spec(extension@),
{
    if same_text(extension, "cpp") {
        FileType::Cpp
    } else if same_text(extension, "rs") {
        FileType::Rs
    } else if same_text(extension, "c") {
        FileType::C
    } else if same_text(extension, "go") {
        FileType::Go
    } else if same_text(extension, "py") {
        FileType::Py
    } else if same_text(extension, "java") {
        FileType::Java
    } else {
        FileType::Placeholder
    }
}

/// The extension of a file name: what follows its last dot, or the whole
/// name where it has none.
pub open spec fn extension_spec(file_name: Seq<char>) -> Seq<char> {
    file_name.subrange(start_after_last(file_name, seq!['.']), file_name.len() as int)
}

/// The extension of `file_name`, without its dot.
pub fn extension_of(file_name: &str) -> (r: String)
    ensures
        r@ == extension_spec(file_name@),
{
    let v = chars_of(file_name);
    let mut dot: Vec<char> = Vec::new();
    dot.push('.');
    assert(dot@ =~= seq!['.']);
    let start = find_start_after_last(&v, &dot);
    String::from_str(file_name.substring_char(start, v.len()))
}

/// The command a lower-case word names.
pub open spec fn command_spec(word: Seq<char>) -> Option<MyCommand> {
    if word == "new"@ {
        Some(MyCommand::New)
    } else if word == "help"@ {
        Some(MyCommand::Help)
    } else if word == "dep"@ {
        Some(MyCommand::Dep)
    } else if word == "run"@ {
        Some(MyCommand::Run)
    } else if word == "proj"@ {
        Some(MyCommand::Proj)
    } else {
        None
    }
}

/// The lower-case form of a string, as `str::to_lowercase` gives it.
pub uninterp spec fn lower_of(s: Seq<char>) -> Seq<char>;

/// Relies on `str::to_lowercase`: the result depends on the characters alone.
#[verifier::external_body]
fn lowercase(s: &str) -> (r: String)
    ensures
        r@ == lower_of(s@),
{
    s.to_lowercase()
}

/// The command named by a word already in lower case; `None` for any other.
pub fn command_of(lowered: &str) -> (r: Option<MyCommand>)
    ensures
        r == command_spec(lowered@),
{
    if same_text(lowered, "new") {
        Some(MyCommand::New)
    } else if same_text(lowered, "help") {
        Some(MyCommand::Help)
    } else if same_text(lowered, "dep") {
        Some(MyCommand::Dep)
    } else if same_text(lowered, "run") {
        Some(MyCommand::Run)
    } else if same_text(lowered, "proj") {
        Some(MyCommand::Proj)
    } else {
        None
    }
}

/// The command a word names, in any case; `None` for an unknown word.
pub fn parse_command(word: &str) -> (r: Option<MyCommand>)
    ensures
        r == command_spec(lower_of(word@)),
{
    let lowered = lowercase(word);
    command_of(lowered.as_str())
}

/// A request to the tool: the language of its file, and the command.
#[derive(Debug)]
pub struct Language {
    pub file_extension: FileType,
    pub dependency_file: String,
    pub command: MyCommand,
}

/// What creating the file `file` does: write the starter program, then, for a
/// non-empty dependency name, inject it into the file just written.
pub open spec fn new_plan(
    file: Seq<char>,
    tag: FileType,
    dep: Seq<char>,
    manifest: Option<Seq<char>>,
) -> PlanSpec {
    if tag == FileType::Placeholder {
        PlanSpec { effects: seq![], failure: Some(LionError::UnsupportedFileType) }
    } else {
        let write = Effect::WriteFile(file, template_text(tag));
        if dep.len() == 0 {
            PlanSpec { effects: seq![write], failure: None }
        } else {
            let d = dependency_plan(tag, file, dep, Some(template_text(tag)), manifest);
            PlanSpec { effects: seq![write] + d.effects, failure: d.failure }
        }
    }
}

/// The effects of the manifest step of a new project.
pub open spec fn project_manifest(tag: FileType, name: Seq<char>) -> Seq<Effect> {
    if tag == FileType::Rs {
        seq![Effect::WriteFile(name + "/Cargo.toml"@, Seq::empty())]
    } else if tag == FileType::Placeholder {
        seq![Effect::Warn("error: Error, unknown file extension"@)]
    } else {
        seq![]
    }
}

/// What creating the project `name` with the source file `code_file` does.
pub open spec fn project_plan(tag: FileType, name: Seq<char>, code_file: Seq<char>) -> PlanSpec {
    let source = new_plan(name + "/src/"@ + code_file, tag, Seq::empty(), None);
    PlanSpec {
        effects: seq![
            Effect::MakeDir(name),
            Effect::MakeDir(name + "/src"@),
            Effect::MakeDir(name + "/target"@),
            Effect::WriteFile(name + "/.gitignore"@, "/target"@),
        ] + project_manifest(tag, name) + source.effects,
        failure: source.failure,
    }
}

/// The tool's operations. Each returns what is to be done; the caller reads
/// the files named and carries the plan out.
pub trait Functions {
    /// Creates `file_name` holding the starter program, overwriting it, and
    /// injects `dependency` when it is not empty. `manifest` is what
    /// `Cargo.toml` holds, `None` where it is missing.
    fn new(file_name: &str, file_ext: FileType, dependency: &str, manifest: Option<String>) -> (r:
        Plan)
        ensures
            r@ == new_plan(file_name@, file_ext, dependency@, text_of(manifest)),
    ;

    /// Declares `dep` for `file_name`. `current` is what that file holds and
    /// `manifest` what `Cargo.toml` holds, each `None` where it is missing.
    fn dependency(
        extension: FileType,
        file_name: &str,
        dep: &str,
        current: Option<String>,
        manifest: Option<String>,
    ) -> (r: Plan)
        ensures
            r@ == dependency_plan(extension, file_name@, dep@, text_of(current), text_of(manifest)),
    ;

    /// Starts running the source file `file_name`.
    fn run(file_ext: FileType, file_name: &str, platform: Platform) -> (r: Result<
        Execution,
        LionError,
    >)
        ensures
            file_ext == FileType::Placeholder ==> r == Err::<Execution, LionError>(
                LionError::RunUnsupported,
            ),
            file_ext != FileType::Placeholder ==> r is Ok && r->Ok_0@ == fresh(
                run_steps(file_ext, file_name@, platform),
            ),
    ;

    /// Lays out the project `proj_name` with the source file `code_file`.
    fn project(file_ext: FileType, proj_name: &str, code_file: &str) -> (r: Plan)
        ensures
            r@ == project_plan(file_ext, proj_name@, code_file@),
    ;
}

/// Appends `more` to `ops`.
fn append_ops(ops: &mut Vec<FsOp>, more: Vec<FsOp>)
    ensures
        effects_of(final(ops)@) == effects_of(old(ops)@) + effects_of(more@),
{
    let mut more = more;
    let ghost a = ops@;
    let ghost b = more@;
    ops.append(&mut more);
    assert(effects_of(ops@) =~= effects_of(a) + effects_of(b));
}

fn join(a: &str, b: &str) -> (r: String)
    ensures
        r@ == a@ + b@,
{
    let mut r = String::from_str(a);
    r.append(b);
    r
}

impl Functions for Language {
    fn new(file_name: &str, file_ext: FileType, dependency: &str, manifest: Option<String>) -> (r:
        Plan) {
        if file_ext == FileType::Placeholder {
            let ops: Vec<FsOp> = Vec::new();
            assert(effects_of(ops@) =~= seq![]);
            return Plan { ops, failure: Some(LionError::UnsupportedFileType) };
        }
        let body = template(file_ext);
        let mut ops: Vec<FsOp> = Vec::new();
        ops.push(FsOp::WriteFile { path: String::from_str(file_name), contents: body.clone() });
        assert(effects_of(ops@) =~= seq![Effect::WriteFile(file_name@, template_text(file_ext))]);
        if dependency.is_empty() {
            Plan { ops, failure: None }
        } else {
            let d = plan_dependency(file_ext, file_name, dependency, Some(body), manifest);
            append_ops(&mut ops, d.ops);
            Plan { ops, failure: d.failure }
        }
    }

    fn dependency(
        extension: FileType,
        file_name: &str,
        dep: &str,
        current: Option<String>,
        manifest: Option<String>,
    ) -> (r: Plan) {
        plan_dependency(extension, file_name, dep, current, manifest)
    }

    fn run(file_ext: FileType, file_name: &str, platform: Platform) -> (r: Result<
        Execution,
        LionError,
    >) {
        Execution::start(file_ext, file_name, platform)
    }

    fn project(file_ext: FileType, proj_name: &str, code_file: &str) -> (r: Plan) {
        let mut ops: Vec<FsOp> = Vec::new();
        ops.push(FsOp::MakeDir(String::from_str(proj_name)));
        ops.push(FsOp::MakeDir(join(proj_name, "/src")));
        ops.push(FsOp::MakeDir(join(proj_name, "/target")));
        ops.push(
            FsOp::WriteFile {
                path: join(proj_name, "/.gitignore"),
                contents: String::from_str("/target"),
            },
        );
        if file_ext == FileType::Rs {
            ops.push(
                FsOp::WriteFile { path: join(proj_name, "/Cargo.toml"), contents: String::new() },
            );
        } else if file_ext == FileType::Placeholder {
            ops.push(FsOp::Warn(String::from_str("error: Error, unknown file extension")));
        }
        assert(effects_of(ops@) =~= project_plan(file_ext, proj_name@, code_file@).effects.subrange(
            0,
            4 + project_manifest(file_ext, proj_name@).len() as int,
        ));
        let source = join(join(proj_name, "/src/").as_str(), code_file);
        let created = Self::new(source.as_str(), file_ext, "", None);
        proof {
            reveal_strlit("");
        }
        append_ops(&mut ops, created.ops);
        assert(effects_of(ops@) =~= project_plan(file_ext, proj_name@, code_file@).effects);
        Plan { ops, failure: created.failure }
    }
}

} // verus!
