use vstd::prelude::*;

use crate::languages::FileType;
use crate::plan::LionError;
use crate::text::{
    chars_of, find_char_from, find_start_after_last, index_of_from, start_after_last,
};

verus! {

/// The host family, which decides how a compiled artifact is invoked.
#[derive(Clone, Copy, Debug, PartialEq, Eq, Structural)]
pub enum Platform {
    Posix,
    Windows,
}

/// An external program and its arguments.
#[derive(Debug, PartialEq, Eq)]
pub struct Invocation {
    pub program: String,
    pub args: Vec<String>,
}

/// An `Invocation` over plain character sequences.
pub struct Call {
    pub program: Seq<char>,
    pub args: Seq<Seq<char>>,
}

pub open spec fn texts_of(v: Seq<String>) -> Seq<Seq<char>> {
    v.map_values(|a: String| a@)
}

impl View for Invocation {
    type V = Call;

    open spec fn view(&self) -> Call {
        Call { program: self.program@, args: texts_of(self.args@) }
    }
}

/// One step of running a file.
#[derive(Debug, PartialEq, Eq)]
pub enum Step {
    /// Create the directory and any missing parents.
    MakeDir(String),
    /// Run the program and wait for it; a non-zero exit is a failure.
    Invoke(Invocation),
}

pub enum StepSpec {
    MakeDir(Seq<char>),
    Invoke(Call),
}

impl View for Step {
    type V = StepSpec;

    open spec fn view(&self) -> StepSpec {
        match self {
            Step::MakeDir(d) => StepSpec::MakeDir(d@),
            Step::Invoke(i) => StepSpec::Invoke(i@),
        }
    }
}

pub open spec fn call(program: Seq<char>, args: Seq<Seq<char>>) -> Call {
    Call { program, args }
}

/// The directory that compiled output goes to.
pub open spec fn build_dir() -> Seq<char> {
    "target"@
}

/// Where a compiler is told to put its artifact.
pub open spec fn artifact_out() -> Seq<char> {
    "target/lion_compiled"@
}

/// How the compiled artifact is invoked on each platform.
pub open spec fn artifact_command(p: Platform) -> Seq<char> {
    match p {
        Platform::Posix => "./target/lion_compiled"@,
        Platform::Windows => ".\\target\\lion_compiled.exe"@,
    }
}

/// The compiler of a language compiled to a native artifact.
pub open spec fn compiler(tag: FileType) -> Seq<char> {
    match tag {
        FileType::C => "gcc"@,
        FileType::Cpp => "g++"@,
        _ => "rustc"@,
    }
}

/// A path separator.
pub open spec fn separators() -> Seq<char> {
    seq!['/', '\\']
}

/// The class a Java source file defines: its file name up to the first dot.
pub open spec fn class_name(path: Seq<char>) -> Seq<char> {
    let start = start_after_last(path, separators());
    path.subrange(start, index_of_from(path, '.', start))
}

/// The language is compiled first and its output then run.
pub open spec fn is_compiled(tag: FileType) -> bool {
    tag == FileType::C || tag == FileType::Cpp || tag == FileType::Rs || tag == FileType::Java
}

/// The programs that run the source file at `path`, in order.
pub open spec fn recipe(tag: FileType, path: Seq<char>, p: Platform) -> Seq<Call> {
    match tag {
        FileType::Py => seq![call("python3"@, seq![path])],
        FileType::Go => seq![call("go"@, seq!["run"@, path])],
        FileType::C | FileType::Cpp | FileType::Rs => seq![
            call(compiler(tag), seq![path, "-o"@, artifact_out()]),
            call(artifact_command(p), seq![]),
        ],
        FileType::Java => seq![
            call("javac"@, seq!["-d"@, build_dir(), path]),
            call("java"@, seq!["-cp"@, build_dir(), class_name(path)]),
        ],
        FileType::Placeholder => seq![],
    }
}

/// All steps of running the file: make sure the build directory exists,
/// then the recipe.
pub open spec fn run_steps(tag: FileType, path: Seq<char>, p: Platform) -> Seq<StepSpec> {
    seq![StepSpec::MakeDir(build_dir())] + recipe(tag, path, p).map_values(
        |c: Call| StepSpec::Invoke(c),
    )
}

/// What the caller is to do next.
#[derive(Debug, PartialEq, Eq)]
pub enum Action {
    Perform(Step),
    Finished,
    /// A step failed: stop, and run nothing more.
    Abort,
}

pub enum ActionSpec {
    Perform(StepSpec),
    Finished,
    Abort,
}

impl View for Action {
    type V = ActionSpec;

    open spec fn view(&self) -> ActionSpec {
        match self {
            Action::Perform(s) => ActionSpec::Perform(s@),
            Action::Finished => ActionSpec::Finished,
            Action::Abort => ActionSpec::Abort,
        }
    }
}

/// The progress of running a file: its steps, how many of them succeeded,
/// and whether one failed.
pub struct Execution {
    steps: Vec<Step>,
    done: usize,
    failed: bool,
}

pub struct ExecutionSpec {
    pub steps: Seq<StepSpec>,
    pub done: nat,
    pub failed: bool,
}

impl View for Execution {
    type V = ExecutionSpec;

    closed spec fn view(&self) -> ExecutionSpec {
        ExecutionSpec {
            steps: self.steps@.map_values(|s: Step| s@),
            done: self.done as nat,
            failed: self.failed,
        }
    }
}

/// A run that has not started.
pub open spec fn fresh(steps: Seq<StepSpec>) -> ExecutionSpec {
    ExecutionSpec { steps, done: 0, failed: false }
}

/// The next step is offered only while no step has failed.
pub open spec fn next_action_spec(e: ExecutionSpec) -> ActionSpec {
    if e.failed {
        ActionSpec::Abort
    } else if e.done < e.steps.len() {
        ActionSpec::Perform(e.steps[e.done as int])
    } else {
        ActionSpec::Finished
    }
}

/// The state once the outcome of the offered step is known; a run that is
/// over does not change.
pub open spec fn advance(e: ExecutionSpec, succeeded: bool) -> ExecutionSpec {
    if e.failed || e.done >= e.steps.len() {
        e
    } else if succeeded {
        ExecutionSpec { done: e.done + 1, ..e }
    } else {
        ExecutionSpec { failed: true, ..e }
    }
}

/// The state after a series of reported outcomes.
pub open spec fn after(e: ExecutionSpec, outcomes: Seq<bool>) -> ExecutionSpec
    decreases outcomes.len(),
{
    if outcomes.len() == 0 {
        e
    } else {
        after(advance(e, outcomes[0]), outcomes.drop_first())
    }
}

fn text(s: &str) -> (r: String)
    ensures
        r@ == s@,
{
    String::from_str(s)
}

fn invocation(program: &str, args: Vec<String>) -> (r: Step)
    ensures
        r@ == StepSpec::Invoke(call(program@, texts_of(args@))),
{
    Step::Invoke(Invocation { program: text(program), args })
}

/// The class name of a Java source file at `path`.
pub fn java_class(path: &str) -> (r: String)
    ensures
        r@ == class_name(path@),
{
    let v = chars_of(path);
    let mut seps: Vec<char> = Vec::new();
    seps.push('/');
    seps.push('\\');
    assert(seps@ =~= separators());
    let start = find_start_after_last(&v, &seps);
    let end = find_char_from(&v, '.', start);
    proof {
        crate::text::lemma_index_of_from_bound(path@, '.', start as int);
    }
    text(path.substring_char(start, end))
}

impl Step {
    /// A copy of the step.
    pub fn duplicate(&self) -> (r: Step)
        ensures
            r@ == self@,
    {
        match self {
            Step::MakeDir(d) => Step::MakeDir(d.clone()),
            Step::Invoke(inv) => {
                let mut args: Vec<String> = Vec::new();
                let mut i: usize = 0;
                while i < inv.args.len()
                    invariant
                        i <= inv.args@.len(),
                        args@ == inv.args@.subrange(0, i as int),
                    decreases inv.args@.len() - i,
                {
                    args.push(inv.args[i].clone());
                    i = i + 1;
                    assert(args@ =~= inv.args@.subrange(0, i as int));
                }
                assert(args@ =~= inv.args@);
                Step::Invoke(Invocation { program: inv.program.clone(), args })
            },
        }
    }
}

impl Execution {
    /// Starts running the source file at `path`; there is no recipe for an
    /// unknown file type.
    pub(crate) fn start(tag: FileType, path: &str, platform: Platform) -> (r: Result<Execution, LionError>)
        ensures
            tag == FileType::Placeholder ==> r == Err::<Execution, LionError>(
                LionError::RunUnsupported,
            ),
            tag != FileType::Placeholder ==> r is Ok && r->Ok_0@ == fresh(
                run_steps(tag, path@, platform),
            ),
    {
        if tag == FileType::Placeholder {
            return Err(LionError::RunUnsupported);
        }
        let mut steps: Vec<Step> = Vec::new();
        steps.push(Step::MakeDir(text("target")));
        let ghost calls = recipe(tag, path@, platform);
        match tag {
            FileType::Py => {
                let args = vec![text(path)];
                assert(texts_of(args@) =~= calls[0].args);
                steps.push(invocation("python3", args));
            },
            FileType::Go => {
                let args = vec![text("run"), text(path)];
                assert(texts_of(args@) =~= calls[0].args);
                steps.push(invocation("go", args));
            },
            FileType::Java => {
                let args = vec![text("-d"), text("target"), text(path)];
                assert(texts_of(args@) =~= calls[0].args);
                steps.push(invocation("javac", args));
                let args = vec![text("-cp"), text("target"), java_class(path)];
                assert(texts_of(args@) =~= calls[1].args);
                steps.push(invocation("java", args));
            },
            _ => {
                let compiler_name = match tag {
                    FileType::C => "gcc",
                    FileType::Cpp => "g++",
                    _ => "rustc",
                };
                let args = vec![text(path), text("-o"), text("target/lion_compiled")];
                assert(texts_of(args@) =~= calls[0].args);
                steps.push(invocation(compiler_name, args));
                let artifact = match platform {
                    Platform::Posix => "./target/lion_compiled",
                    Platform::Windows => ".\\target\\lion_compiled.exe",
                };
                let args: Vec<String> = Vec::new();
                assert(texts_of(args@) =~= calls[1].args);
                steps.push(invocation(artifact, args));
            },
        }
        assert(steps@.map_values(|s: Step| s@) =~= run_steps(tag, path@, platform));
        Ok(Execution { steps, done: 0, failed: false })
    }

    /// What to do next.
    pub fn next_action(&self) -> (a: Action)
        ensures
            a@ == next_action_spec(self@),
    {
        if self.failed {
            Action::Abort
        } else if self.done < self.steps.len() {
            Action::Perform(self.steps[self.done].duplicate())
        } else {
            Action::Finished
        }
    }

    /// Records whether the step last offered by `next_action` succeeded.
    pub fn report(&mut self, succeeded: bool)
        ensures
            final(self)@ == advance(old(self)@, succeeded),
    {
        if self.failed || self.done >= self.steps.len() {
        } else if succeeded {
            self.done = self.done + 1;
        } else {
            self.failed = true;
        }
    }
}

} // verus!
