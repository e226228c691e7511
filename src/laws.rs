use vstd::prelude::*;

use crate::engine::{
    advance, after, artifact_command, artifact_out, call, compiler, fresh, is_compiled,
    next_action_spec, run_steps, ActionSpec, ExecutionSpec, Platform, StepSpec,
};
use crate::inject::{
    declaration, declares_in_source, dependency_plan, manifest_entry, manifest_path,
    section_header,
};
use crate::languages::{new_plan, resolve_spec, FileType};
use crate::plan::{Effect, LionError};
use crate::template::template_text;
use crate::text::{first_occurrence, lemma_first_from, occurs_at};

verus! {

/// Creating a file of a supported language without a dependency writes
/// exactly that language's starter program to it, and nothing else.
pub proof fn lemma_create_writes_template(
    file: Seq<char>,
    tag: FileType,
    manifest: Option<Seq<char>>,
)
    requires
        tag != FileType::Placeholder,
    ensures
        new_plan(file, tag, Seq::empty(), manifest).effects == seq![
            Effect::WriteFile(file, template_text(tag)),
        ],
        new_plan(file, tag, Seq::empty(), manifest).failure is None,
{
}

/// Where dependencies are declared in the source, injecting puts the
/// declaration first and keeps the earlier contents (or the starter program,
/// for a missing file) unchanged after it; injecting a second dependency
/// into the result gives both declarations, the newer first.
pub proof fn lemma_inject_twice(
    tag: FileType,
    file: Seq<char>,
    first: Seq<char>,
    second: Seq<char>,
    current: Option<Seq<char>>,
    manifest: Option<Seq<char>>,
)
    requires
        declares_in_source(tag),
    ensures
        ({
            let base = match current {
                Some(c) => c,
                None => template_text(tag),
            };
            let once = declaration(tag, first) + base;
            &&& dependency_plan(tag, file, first, current, manifest).effects == seq![
                Effect::WriteFile(file, once),
            ]
            &&& dependency_plan(tag, file, second, Some(once), manifest).effects == seq![
                Effect::WriteFile(file, declaration(tag, second) + declaration(tag, first) + base),
            ]
            &&& declaration(tag, first).last() == '\n'
        }),
{
    let base = match current {
        Some(c) => c,
        None => template_text(tag),
    };
    reveal_strlit("\n");
    reveal_strlit(".h\"\n");
    assert(declaration(tag, second) + (declaration(tag, first) + base) =~= declaration(
        tag,
        second,
    ) + declaration(tag, first) + base);
}

/// A manifest that starts with the section header gets the new entry on the
/// line right after the header, ahead of the entries it had.
pub proof fn lemma_entry_after_header(
    file: Seq<char>,
    dep: Seq<char>,
    rest: Seq<char>,
    current: Option<Seq<char>>,
)
    ensures
        dependency_plan(FileType::Rs, file, dep, current, Some(section_header() + rest)).effects
            == seq![
            Effect::WriteFile(
                manifest_path(),
                section_header() + "\n"@ + manifest_entry(dep) + rest + "\n"@,
            ),
            Effect::WriteFile(file, template_text(FileType::Rs)),
        ],
        dependency_plan(FileType::Rs, file, dep, current, Some(section_header() + rest)).failure
            is None,
{
    let m = section_header() + rest;
    let h = section_header();
    assert(m.subrange(0, h.len() as int) =~= h);
    assert(occurs_at(m, h, 0));
    assert(first_occurrence(m, h) == Some(0int));
    assert(m.subrange(0, 0) =~= Seq::<char>::empty());
    assert(m.subrange(h.len() as int, m.len() as int) =~= rest);
    assert(Seq::<char>::empty() + h + "\n"@ + manifest_entry(dep) + rest + "\n"@ =~= h + "\n"@
        + manifest_entry(dep) + rest + "\n"@);
}

/// Injecting with no manifest creates one holding the header and the one
/// new entry.
pub proof fn lemma_missing_manifest(file: Seq<char>, dep: Seq<char>, current: Option<Seq<char>>)
    ensures
        dependency_plan(FileType::Rs, file, dep, current, None).effects[0] == Effect::WriteFile(
            manifest_path(),
            section_header() + "\n"@ + manifest_entry(dep) + "\n"@,
        ),
        dependency_plan(FileType::Rs, file, dep, current, None).failure is None,
{
    let h = section_header();
    assert(h + Seq::<char>::empty() =~= h);
    lemma_entry_after_header(file, dep, Seq::empty(), current);
    assert(h + "\n"@ + manifest_entry(dep) + Seq::<char>::empty() =~= h + "\n"@ + manifest_entry(
        dep,
    ));
}

/// Injecting into a manifest without the section header is fatal and
/// changes no file.
pub proof fn lemma_malformed_manifest(
    file: Seq<char>,
    dep: Seq<char>,
    current: Option<Seq<char>>,
    manifest: Seq<char>,
)
    requires
        forall|i: int| !occurs_at(manifest, section_header(), i),
    ensures
        dependency_plan(FileType::Rs, file, dep, current, Some(manifest)).failure == Some(
            LionError::MissingDependencySection,
        ),
        dependency_plan(FileType::Rs, file, dep, current, Some(manifest)).effects.len() == 0,
{
    lemma_first_from(manifest, section_header(), 0);
}

/// Every step that has run so far succeeded: a step is offered only when
/// each report before it was a success.
pub proof fn lemma_offered_after_successes(e: ExecutionSpec, outcomes: Seq<bool>)
    requires
        !e.failed,
    ensures
        ({
            let a = after(e, outcomes);
            &&& a.steps == e.steps
            &&& (!a.failed && a.done < e.steps.len()) ==> (a.done == e.done + outcomes.len()
                && forall|i: int| 0 <= i < outcomes.len() ==> outcomes[i])
        }),
    decreases outcomes.len(),
{
    if outcomes.len() > 0 {
        let e1 = advance(e, outcomes[0]);
        let rest = outcomes.drop_first();
        if !e1.failed {
            lemma_offered_after_successes(e1, rest);
            let a = after(e1, rest);
            if !a.failed && a.done < e.steps.len() {
                assert forall|i: int| 0 <= i < outcomes.len() implies outcomes[i] by {
                    if i > 0 {
                        assert(outcomes[i] == rest[i - 1]);
                    }
                }
            }
        } else {
            lemma_stays_failed(e1, rest);
        }
    }
}

/// A run in which a step failed stays stopped.
pub proof fn lemma_stays_failed(e: ExecutionSpec, outcomes: Seq<bool>)
    requires
        e.failed,
    ensures
        after(e, outcomes) == e,
    decreases outcomes.len(),
{
    if outcomes.len() > 0 {
        lemma_stays_failed(advance(e, outcomes[0]), outcomes.drop_first());
    }
}

/// For a compiled language the compile step comes before the run step, and
/// the run step is offered only after the compile step reported success:
/// whatever outcomes were reported, offering it means the compile succeeded.
pub proof fn lemma_run_only_after_compile(
    tag: FileType,
    path: Seq<char>,
    p: Platform,
    outcomes: Seq<bool>,
)
    requires
        is_compiled(tag),
    ensures
        ({
            let steps = run_steps(tag, path, p);
            let a = after(fresh(steps), outcomes);
            &&& steps.len() == 3
            &&& (tag != FileType::Java ==> steps[1] == StepSpec::Invoke(
                call(compiler(tag), seq![path, "-o"@, artifact_out()]),
            ) && steps[2] == StepSpec::Invoke(call(artifact_command(p), seq![])))
            &&& next_action_spec(a) == ActionSpec::Perform(steps[2]) ==> outcomes.len() == 2
                && outcomes[0] && outcomes[1]
        }),
{
    let steps = run_steps(tag, path, p);
    let invokes = crate::engine::recipe(tag, path, p).map_values(|c: crate::engine::Call| StepSpec::Invoke(c));
    assert(steps[1] == invokes[0]);
    assert(steps[2] == invokes[1]);
    lemma_offered_after_successes(fresh(steps), outcomes);
    let a = after(fresh(steps), outcomes);
    if next_action_spec(a) == ActionSpec::Perform(steps[2]) {
        assert(!a.failed && a.done < steps.len());
        reveal_strlit("-d");
        reveal_strlit("-cp");
        assert(steps[0] != steps[2]);
        if tag == FileType::Java {
            assert(invokes[0]->Invoke_0.args[0].len() != invokes[1]->Invoke_0.args[0].len());
        } else {
            assert(invokes[0]->Invoke_0.args.len() != invokes[1]->Invoke_0.args.len());
        }
        assert(steps[1] != steps[2]);
        assert(a.done == 2);
    }
}

/// An extension outside the known set names no language, and creating a
/// file of that kind is fatal before anything is written.
pub proof fn lemma_unknown_extension(
    ext: Seq<char>,
    file: Seq<char>,
    dep: Seq<char>,
    manifest: Option<Seq<char>>,
)
    requires
        ext != "cpp"@,
        ext != "rs"@,
        ext != "c"@,
        ext != "go"@,
        ext != "py"@,
        ext != "java"@,
    ensures
        resolve_spec(ext) == FileType::Placeholder,
        new_plan(file, resolve_spec(ext), dep, manifest).failure == Some(
            LionError::UnsupportedFileType,
        ),
        new_plan(file, resolve_spec(ext), dep, manifest).effects.len() == 0,
{
}

} // verus!
