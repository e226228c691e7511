use lion_cli::{
    add_to_manifest, command_of, extension_of, parse_command, resolve, template, Action,
    FileType, FsOp, Functions, Invocation, Language, LionError, MyCommand, Platform, Plan, Step,
};

const PY: &str = "print(\"Hello Lion!\")";
const RS: &str = "fn main() {\n    println!(\"Hello Lion!\");\n}";
const GO: &str = "package main\n\nimport \"fmt\"\n\nfunc main() {\n    fmt.Println(\"Hello Lion!\")\n}";

fn write(path: &str, contents: &str) -> FsOp {
    FsOp::WriteFile { path: path.to_string(), contents: contents.to_string() }
}

fn invoke(program: &str, args: &[&str]) -> Action {
    Action::Perform(Step::Invoke(Invocation {
        program: program.to_string(),
        args: args.iter().map(|a| a.to_string()).collect(),
    }))
}

#[test]
fn resolve_known_extensions() {
    assert_eq!(resolve("cpp"), FileType::Cpp);
    assert_eq!(resolve("rs"), FileType::Rs);
    assert_eq!(resolve("c"), FileType::C);
    assert_eq!(resolve("go"), FileType::Go);
    assert_eq!(resolve("py"), FileType::Py);
    assert_eq!(resolve("java"), FileType::Java);
}

#[test]
fn resolve_unknown_extension_is_placeholder() {
    assert_eq!(resolve("xyz"), FileType::Placeholder);
    assert_eq!(resolve("ts"), FileType::Placeholder);
    assert_eq!(resolve(""), FileType::Placeholder);
    assert_eq!(resolve("RS"), FileType::Placeholder);
}

#[test]
fn create_with_unknown_tag_is_fatal() {
    let plan = Language::new("notes.xyz", resolve("xyz"), "", None);
    assert_eq!(plan, Plan { ops: vec![], failure: Some(LionError::UnsupportedFileType) });
}

#[test]
fn create_writes_each_template() {
    let tags = [FileType::Py, FileType::Rs, FileType::Cpp, FileType::C, FileType::Go, FileType::Java];
    for tag in tags {
        let plan = Language::new("f", tag, "", None);
        assert_eq!(plan.failure, None);
        assert_eq!(plan.ops, vec![write("f", template(tag).as_str())]);
    }
    assert_eq!(template(FileType::Py), PY);
    assert_eq!(template(FileType::Rs), RS);
    assert_eq!(template(FileType::Go), GO);
    assert!(template(FileType::Java).starts_with("public class Main {"));
    assert!(template(FileType::C).contains("printf(\"Hello Lion!\");"));
}

#[test]
fn extension_is_text_after_last_dot() {
    assert_eq!(extension_of("main.go"), "go");
    assert_eq!(extension_of("archive.tar.gz"), "gz");
    assert_eq!(extension_of("Makefile"), "Makefile");
    assert_eq!(extension_of("trailing."), "");
}

#[test]
fn commands_parse_in_any_case() {
    assert_eq!(parse_command("new"), Some(MyCommand::New));
    assert_eq!(parse_command("RuN"), Some(MyCommand::Run));
    assert_eq!(parse_command("PROJ"), Some(MyCommand::Proj));
    assert_eq!(parse_command("bogus"), None);
    assert_eq!(command_of("help"), Some(MyCommand::Help));
    assert_eq!(command_of("Dep"), None);
    assert_eq!(command_of("dep"), Some(MyCommand::Dep));
}

#[test]
fn inject_python_import_prepends() {
    let plan = Language::dependency(FileType::Py, "app.py", "numpy", Some("x = 1\n".to_string()), None);
    assert_eq!(plan, Plan { ops: vec![write("app.py", "import numpy\nx = 1\n")], failure: None });
}

#[test]
fn inject_missing_source_uses_template() {
    let plan = Language::dependency(FileType::Py, "app.py", "os", None, None);
    assert_eq!(plan.ops, vec![write("app.py", &format!("import os\n{PY}"))]);
    let plan = Language::dependency(FileType::Cpp, "a.cpp", "fmt", None, None);
    let expected = format!("#include \"fmt/fmt.h\"\n{}", template(FileType::Cpp));
    assert_eq!(plan.ops, vec![write("a.cpp", &expected)]);
}

#[test]
fn inject_twice_newest_first() {
    let first = Language::dependency(FileType::Py, "a.py", "os", Some("body".to_string()), None);
    let FsOp::WriteFile { contents, .. } = &first.ops[0] else { panic!("expected a write") };
    let second = Language::dependency(FileType::Py, "a.py", "sys", Some(contents.clone()), None);
    assert_eq!(second.ops, vec![write("a.py", "import sys\nimport os\nbody")]);

    let first = Language::dependency(FileType::Cpp, "a.cpp", "x", Some("int a;".to_string()), None);
    let FsOp::WriteFile { contents, .. } = &first.ops[0] else { panic!("expected a write") };
    let second = Language::dependency(FileType::Cpp, "a.cpp", "y", Some(contents.clone()), None);
    assert_eq!(second.ops, vec![write("a.cpp", "#include \"y/y.h\"\n#include \"x/x.h\"\nint a;")]);
}

#[test]
fn inject_manifest_puts_entry_after_header() {
    let manifest = "[dependencies]\nfoo = \"*\"\n".to_string();
    let plan = Language::dependency(FileType::Rs, "main.rs", "bar", Some("old".to_string()), Some(manifest));
    assert_eq!(plan.failure, None);
    let FsOp::WriteFile { path, contents } = &plan.ops[0] else { panic!("expected a write") };
    assert_eq!(path, "Cargo.toml");
    assert!(contents.starts_with("[dependencies]\nbar = \"*\"\nfoo = \"*\"\n"));
    assert_eq!(contents, "[dependencies]\nbar = \"*\"\nfoo = \"*\"\n\n");
    assert_eq!(plan.ops[1], write("main.rs", RS));
    assert_eq!(plan.ops.len(), 2);
}

#[test]
fn inject_manifest_keeps_text_before_header() {
    let manifest = "[package]\nname = \"x\"\n[dependencies]".to_string();
    let plan = Language::dependency(FileType::Rs, "m.rs", "rand", None, Some(manifest));
    assert_eq!(plan.ops[0], write("Cargo.toml", "[package]\nname = \"x\"\n[dependencies]\nrand = \"*\"\n"));
}

#[test]
fn inject_missing_manifest_creates_one() {
    let plan = Language::dependency(FileType::Rs, "main.rs", "serde", None, None);
    assert_eq!(
        plan,
        Plan {
            ops: vec![write("Cargo.toml", "[dependencies]\nserde = \"*\"\n"), write("main.rs", RS)],
            failure: None,
        }
    );
}

#[test]
fn inject_malformed_manifest_is_fatal() {
    let plan = Language::dependency(FileType::Rs, "main.rs", "serde", None, Some("[package]\n".to_string()));
    assert_eq!(plan, Plan { ops: vec![], failure: Some(LionError::MissingDependencySection) });
    assert_eq!(add_to_manifest("[dependencie]", "a"), None);
}

#[test]
fn add_to_manifest_uses_first_header() {
    let r = add_to_manifest("a[dependencies]b[dependencies]", "x");
    assert_eq!(r, Some("a[dependencies]\nx = \"*\"b[dependencies]\n".to_string()));
}

#[test]
fn inject_unsupported_language_warns() {
    for tag in [FileType::Go, FileType::C, FileType::Java, FileType::Placeholder] {
        let plan = Language::dependency(tag, "f", "d", Some("keep".to_string()), None);
        assert_eq!(
            plan,
            Plan {
                ops: vec![FsOp::Warn("Format not supported for external dependencies".to_string())],
                failure: None,
            }
        );
    }
}

#[test]
fn create_with_dependency_injects_into_template() {
    let plan = Language::new("s.py", FileType::Py, "os", None);
    assert_eq!(plan.ops, vec![write("s.py", PY), write("s.py", &format!("import os\n{PY}"))]);
    let plan = Language::new("m.rs", FileType::Rs, "serde", Some("x = 1".to_string()));
    assert_eq!(plan.ops, vec![write("m.rs", RS)]);
    assert_eq!(plan.failure, Some(LionError::MissingDependencySection));
}

#[test]
fn run_compiled_stops_when_compile_fails() {
    let mut exec = Language::run(FileType::C, "hello.c", Platform::Posix).unwrap();
    assert_eq!(exec.next_action(), Action::Perform(Step::MakeDir("target".to_string())));
    exec.report(true);
    assert_eq!(exec.next_action(), invoke("gcc", &["hello.c", "-o", "target/lion_compiled"]));
    exec.report(false);
    assert_eq!(exec.next_action(), Action::Abort);
    exec.report(true);
    assert_eq!(exec.next_action(), Action::Abort);
}

#[test]
fn run_compiled_runs_artifact_after_compile() {
    let mut exec = Language::run(FileType::Rs, "main.rs", Platform::Windows).unwrap();
    exec.report(true);
    assert_eq!(exec.next_action(), invoke("rustc", &["main.rs", "-o", "target/lion_compiled"]));
    exec.report(true);
    assert_eq!(exec.next_action(), invoke(".\\target\\lion_compiled.exe", &[]));
    exec.report(true);
    assert_eq!(exec.next_action(), Action::Finished);

    let mut exec = Language::run(FileType::Cpp, "a.cpp", Platform::Posix).unwrap();
    exec.report(true);
    assert_eq!(exec.next_action(), invoke("g++", &["a.cpp", "-o", "target/lion_compiled"]));
    exec.report(true);
    assert_eq!(exec.next_action(), invoke("./target/lion_compiled", &[]));
}

#[test]
fn run_java_compiles_then_launches_class() {
    let mut exec = Language::run(FileType::Java, "src/Main.java", Platform::Posix).unwrap();
    exec.report(true);
    assert_eq!(exec.next_action(), invoke("javac", &["-d", "target", "src/Main.java"]));
    exec.report(true);
    assert_eq!(exec.next_action(), invoke("java", &["-cp", "target", "Main"]));
}

#[test]
fn run_interpreted_and_go() {
    let mut exec = Language::run(FileType::Py, "a.py", Platform::Posix).unwrap();
    exec.report(true);
    assert_eq!(exec.next_action(), invoke("python3", &["a.py"]));
    exec.report(true);
    assert_eq!(exec.next_action(), Action::Finished);
    let mut exec = Language::run(FileType::Go, "main.go", Platform::Windows).unwrap();
    exec.report(true);
    assert_eq!(exec.next_action(), invoke("go", &["run", "main.go"]));
}

#[test]
fn run_unknown_is_fatal() {
    assert!(matches!(
        Language::run(FileType::Placeholder, "a.xyz", Platform::Posix),
        Err(LionError::RunUnsupported)
    ));
}

#[test]
fn failed_directory_step_aborts() {
    let mut exec = Language::run(FileType::Py, "a.py", Platform::Posix).unwrap();
    exec.report(false);
    assert_eq!(exec.next_action(), Action::Abort);
}

#[test]
fn scaffold_go_project() {
    let plan = Language::project(resolve("go"), "myapp", "main.go");
    assert_eq!(
        plan,
        Plan {
            ops: vec![
                FsOp::MakeDir("myapp".to_string()),
                FsOp::MakeDir("myapp/src".to_string()),
                FsOp::MakeDir("myapp/target".to_string()),
                write("myapp/.gitignore", "/target"),
                write("myapp/src/main.go", GO),
            ],
            failure: None,
        }
    );
}

#[test]
fn scaffold_rust_project_has_manifest() {
    let plan = Language::project(FileType::Rs, "p", "main.rs");
    assert_eq!(plan.ops[4], write("p/Cargo.toml", ""));
    assert_eq!(plan.ops[5], write("p/src/main.rs", RS));
    assert_eq!(plan.failure, None);
}

#[test]
fn scaffold_unknown_warns_then_fails() {
    let plan = Language::project(FileType::Placeholder, "p", "x.xyz");
    assert_eq!(plan.ops.len(), 5);
    assert_eq!(plan.ops[4], FsOp::Warn("error: Error, unknown file extension".to_string()));
    assert_eq!(plan.failure, Some(LionError::UnsupportedFileType));
}

#[test]
fn error_messages_are_distinct() {
    let a = LionError::UnsupportedFileType.message();
    let b = LionError::MissingDependencySection.message();
    let c = LionError::RunUnsupported.message();
    assert!(!a.is_empty() && a != b && b != c && a != c);
}
