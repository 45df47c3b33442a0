use aipa::task::{Language, Task, AIPA};
use aipa::toolchain::{Backend, ExecutionResult, ProcessOutput, Report, Request, Stage};

const DIR: &str = "/home/alice/aipa_projects";

fn agent() -> AIPA {
    AIPA::with_root(DIR.to_string(), false)
}

fn task(language: &str, goal: &str) -> Task {
    Task::new(language.to_string(), goal.to_string())
}

fn exited(success: bool, stdout: &str, stderr: &str) -> Report {
    Report::Exited(ProcessOutput {
        success,
        stdout: stdout.to_string(),
        stderr: stderr.to_string(),
    })
}

fn expect_probe(request: Request, expected: &str) {
    match request {
        Request::Probe { path } => assert_eq!(path, expected),
        other => panic!("expected a probe, got {:?}", other),
    }
}

fn expect_spawn(request: Request, program: &str, args: &[&str], dir: Option<&str>) {
    match request {
        Request::Spawn { program: p, args: a, dir: d } => {
            assert_eq!(p, program);
            assert_eq!(a, args.iter().map(|s| s.to_string()).collect::<Vec<String>>());
            assert_eq!(d.as_deref(), dir);
        }
        other => panic!("expected a spawn, got {:?}", other),
    }
}

fn expect_finish(request: Request) -> ExecutionResult {
    match request {
        Request::Finish(outcome) => outcome,
        other => panic!("expected an outcome, got {:?}", other),
    }
}

fn expect_abort(request: Request, reason: &str) {
    match request {
        Request::Abort(text) => assert_eq!(text, reason),
        other => panic!("expected an abort, got {:?}", other),
    }
}

#[test]
fn backends_of_the_languages() {
    assert_eq!(Language::Rust.backend(), Backend::Native);
    assert_eq!(Language::Cpp.backend(), Backend::Native);
    assert_eq!(Language::Java.backend(), Backend::Bytecode);
    assert_eq!(Language::Python.backend(), Backend::Interpreted);
    assert_eq!(Language::Unsupported.backend(), Backend::Unsupported);
}

#[test]
fn interpreted_source_is_run_directly() {
    let a = agent();
    let t = task("python", "print hello");
    let (stage, request) = a.execute_code(&t, Stage::Start, Report::Begin);
    assert_eq!(stage, Stage::Running);
    expect_spawn(request, "python", &["/home/alice/aipa_projects/project_print_hello.py"], None);
    let (stage, request) =
        a.execute_code(&t, stage, exited(true, "AIPA: print hello completed\n", ""));
    assert_eq!(stage, Stage::Done);
    let outcome = expect_finish(request);
    assert!(outcome.success);
    assert!(outcome.output.contains("AIPA: print hello completed"));
    assert_eq!(outcome.output, "AIPA: print hello completed\n");
    assert_eq!(outcome.error, None);
}

#[test]
fn interpreted_failure_carries_the_error_stream() {
    let a = agent();
    let t = task("python", "x");
    let (stage, _) = a.execute_code(&t, Stage::Start, Report::Begin);
    let (stage, request) = a.execute_code(&t, stage, exited(false, "partial", "SyntaxError"));
    assert_eq!(stage, Stage::Done);
    let outcome = expect_finish(request);
    assert!(!outcome.success);
    assert_eq!(outcome.output, "partial");
    assert_eq!(outcome.error, Some("SyntaxError".to_string()));
}

#[test]
fn failed_compile_ends_the_attempt_without_a_run() {
    let a = agent();
    let t = task("rust", "x");
    let (stage, request) = a.execute_code(&t, Stage::Start, Report::Begin);
    assert_eq!(stage, Stage::StaleProbe);
    expect_probe(request, "/home/alice/aipa_projects/project_x");
    let (stage, request) = a.execute_code(&t, stage, Report::Exists(false));
    assert_eq!(stage, Stage::Compiling);
    expect_spawn(
        request,
        "rustc",
        &["/home/alice/aipa_projects/project_x.rs", "-o", "/home/alice/aipa_projects/project_x"],
        Some(DIR),
    );
    let (stage, request) =
        a.execute_code(&t, stage, exited(false, "ignored", "error[E0425]: cannot find value"));
    assert_eq!(stage, Stage::Done);
    let outcome = expect_finish(request);
    assert!(!outcome.success);
    assert_eq!(outcome.output, "");
    assert_eq!(outcome.error, Some("error[E0425]: cannot find value".to_string()));
}

#[test]
fn unsupported_language_fails_at_once() {
    let a = agent();
    let t = task("cobol", "y");
    let (stage, request) = a.execute_code(&t, Stage::Start, Report::Begin);
    assert_eq!(stage, Stage::Done);
    let outcome = expect_finish(request);
    assert!(!outcome.success);
    assert_eq!(outcome.output, "");
    assert_eq!(outcome.error, Some("unsupported language".to_string()));
}

#[test]
fn missing_binary_is_a_failure_that_names_the_path() {
    let a = agent();
    let t = task("cpp", "print hello");
    let (stage, _) = a.execute_code(&t, Stage::Start, Report::Begin);
    let (stage, request) = a.execute_code(&t, stage, Report::Exists(false));
    expect_spawn(
        request,
        "g++",
        &[
            "/home/alice/aipa_projects/project_print_hello.cpp",
            "-o",
            "/home/alice/aipa_projects/project_print_hello",
        ],
        Some(DIR),
    );
    let (stage, request) = a.execute_code(&t, stage, exited(true, "", ""));
    assert_eq!(stage, Stage::ArtifactProbe);
    expect_probe(request, "/home/alice/aipa_projects/project_print_hello");
    let (stage, request) = a.execute_code(&t, stage, Report::Exists(false));
    assert_eq!(stage, Stage::Done);
    let outcome = expect_finish(request);
    assert!(!outcome.success);
    assert_eq!(outcome.output, "");
    let detail = outcome.error.unwrap();
    assert!(detail.contains("/home/alice/aipa_projects/project_print_hello"));
    assert_eq!(
        detail,
        "Binary not created at \"/home/alice/aipa_projects/project_print_hello\""
    );
}

#[test]
fn missing_class_is_a_failure_that_names_the_path() {
    let a = agent();
    let t = task("java", "x");
    let (stage, request) = a.execute_code(&t, Stage::ArtifactProbe, Report::Exists(false));
    assert_eq!(stage, Stage::Done);
    let outcome = expect_finish(request);
    assert!(!outcome.success);
    assert_eq!(
        outcome.error,
        Some(
            "Class file not created at \"/home/alice/aipa_projects/project_print_hello.class\""
                .to_string()
        )
    );
    assert_eq!(
        AIPA::missing_artifact_message(Backend::Native, "/p/q"),
        "Binary not created at \"/p/q\""
    );
}

#[test]
fn stale_artifact_is_removed_before_compiling() {
    let a = agent();
    let t = task("rust", "print hello");
    let (stage, _) = a.execute_code(&t, Stage::Start, Report::Begin);
    let (stage, request) = a.execute_code(&t, stage, Report::Exists(true));
    assert_eq!(stage, Stage::StaleRemoval);
    match request {
        Request::Remove { path } => {
            assert_eq!(path, "/home/alice/aipa_projects/project_print_hello")
        }
        other => panic!("expected a removal, got {:?}", other),
    }
    let (stage, request) = a.execute_code(&t, stage, Report::Removed);
    assert_eq!(stage, Stage::Compiling);
    expect_spawn(
        request,
        "rustc",
        &[
            "/home/alice/aipa_projects/project_print_hello.rs",
            "-o",
            "/home/alice/aipa_projects/project_print_hello",
        ],
        Some(DIR),
    );
}

#[test]
fn native_program_is_run_by_its_absolute_path() {
    let a = agent();
    let t = task("rust", "print hello");
    let (stage, request) = a.execute_code(&t, Stage::ArtifactProbe, Report::Exists(true));
    assert_eq!(stage, Stage::Resolving);
    match request {
        Request::Resolve { path } => {
            assert_eq!(path, "/home/alice/aipa_projects/project_print_hello")
        }
        other => panic!("expected a resolve, got {:?}", other),
    }
    let (stage, request) =
        a.execute_code(&t, stage, Report::Resolved("/real/project_print_hello".to_string()));
    assert_eq!(stage, Stage::Running);
    expect_spawn(request, "/real/project_print_hello", &[], None);
    let (stage, request) = a.execute_code(&t, stage, exited(true, "out", "warn"));
    assert_eq!(stage, Stage::Done);
    let outcome = expect_finish(request);
    assert!(outcome.success);
    assert_eq!(outcome.output, "out");
    assert_eq!(outcome.error, None);
}

#[test]
fn bytecode_is_compiled_then_run_by_the_runtime() {
    let a = agent();
    let t = task("java", "greet me");
    let (stage, request) = a.execute_code(&t, Stage::Start, Report::Begin);
    assert_eq!(stage, Stage::StaleProbe);
    expect_probe(request, "/home/alice/aipa_projects/project_print_hello.class");
    let (stage, request) = a.execute_code(&t, stage, Report::Exists(false));
    expect_spawn(
        request,
        "javac",
        &["/home/alice/aipa_projects/project_greet_me.java"],
        Some(DIR),
    );
    let (stage, request) = a.execute_code(&t, stage, exited(true, "", ""));
    assert_eq!(stage, Stage::ArtifactProbe);
    expect_probe(request, "/home/alice/aipa_projects/project_print_hello.class");
    let (stage, request) = a.execute_code(&t, stage, Report::Exists(true));
    assert_eq!(stage, Stage::Running);
    expect_spawn(request, "java", &["project_print_hello"], Some(DIR));
    let (stage, request) = a.execute_code(&t, stage, exited(false, "", "Exception"));
    assert_eq!(stage, Stage::Done);
    let outcome = expect_finish(request);
    assert!(!outcome.success);
    assert_eq!(outcome.error, Some("Exception".to_string()));
}

#[test]
fn io_failure_aborts_the_attempt() {
    let a = agent();
    let t = task("rust", "x");
    let (stage, request) =
        a.execute_code(&t, Stage::StaleRemoval, Report::IoFailed("permission denied".to_string()));
    assert_eq!(stage, Stage::Done);
    expect_abort(request, "permission denied");
    let (stage, request) =
        a.execute_code(&t, Stage::Resolving, Report::IoFailed("no such file".to_string()));
    assert_eq!(stage, Stage::Done);
    expect_abort(request, "no such file");
    let (_, request) =
        a.execute_code(&t, Stage::Compiling, Report::IoFailed("rustc not found".to_string()));
    expect_abort(request, "rustc not found");
}

#[test]
fn failure_to_start_a_native_program_is_named() {
    let a = agent();
    let (stage, request) = a.execute_code(
        &task("cpp", "x"),
        Stage::Running,
        Report::IoFailed("exec format error".to_string()),
    );
    assert_eq!(stage, Stage::Done);
    expect_abort(request, "Failed to execute binary: exec format error");
    let (_, request) = a.execute_code(
        &task("python", "x"),
        Stage::Running,
        Report::IoFailed("python not found".to_string()),
    );
    expect_abort(request, "python not found");
}

#[test]
fn report_that_does_not_answer_aborts() {
    let a = agent();
    let t = task("rust", "x");
    let (stage, request) = a.execute_code(&t, Stage::Start, Report::Removed);
    assert_eq!(stage, Stage::Done);
    expect_abort(request, "Report does not answer the request");
    let (_, request) = a.execute_code(&t, Stage::Compiling, Report::Exists(true));
    expect_abort(request, "Report does not answer the request");
    let (stage, request) = a.execute_code(&t, Stage::Done, Report::Begin);
    assert_eq!(stage, Stage::Done);
    expect_abort(request, "Attempt is already over");
}

#[test]
fn outcome_constructors() {
    let failed = ExecutionResult::failure("boom".to_string());
    assert!(!failed.success);
    assert_eq!(failed.output, "");
    assert_eq!(failed.error, Some("boom".to_string()));
    assert_eq!(failed.detail(), "boom");
    let ok = ExecutionResult::of_process(ProcessOutput {
        success: true,
        stdout: "o".to_string(),
        stderr: "e".to_string(),
    });
    assert!(ok.success);
    assert_eq!(ok.output, "o");
    assert_eq!(ok.error, None);
    assert_eq!(ok.detail(), "unknown error");
}

#[test]
fn every_attempt_ends_within_seven_requests() {
    let a = agent();
    for language in ["rust", "cpp", "java", "python", "cobol"] {
        for stale in [false, true] {
            let t = task(language, "print hello");
            let mut stage = Stage::Start;
            let mut report = Report::Begin;
            let mut requests = 0;
            loop {
                let (next, request) = a.execute_code(&t, stage, report);
                requests += 1;
                stage = next;
                report = match request {
                    Request::Probe { .. } => Report::Exists(stale || requests > 2),
                    Request::Remove { .. } => Report::Removed,
                    Request::Spawn { .. } => exited(true, "", ""),
                    Request::Resolve { path } => Report::Resolved(path),
                    Request::Finish(_) | Request::Abort(_) => break,
                };
            }
            assert_eq!(stage, Stage::Done);
            assert!(requests <= 7);
        }
    }
}
