//! The toolchain adapter: how the source of a task is built and run.
//!
//! The adapter does not touch the file system or start a process itself.
//! It is a machine that is stepped: it hands out a request, is told what
//! came of it, and answers with the next request, until it finishes with
//! an outcome or gives up on an error that no retry can mend.

use crate::task::{language_of, AipaView, Language, Task, TaskView, AIPA};
use crate::text::has_at;
use crate::workspace::{binary_path, class_path, source_path, texts};
use vstd::prelude::*;
use vstd::string::StringExecFns;

verus! {

/// The result of one attempt to build and run a source.
#[derive(Debug)]
pub struct ExecutionResult {
    pub success: bool,
    pub output: String,
    pub error: Option<String>,
}

/// An outcome as plain values.
pub ghost struct OutcomeView {
    pub success: bool,
    pub output: Seq<char>,
    pub error: Option<Seq<char>>,
}

/// The text of an optional string.
pub open spec fn text_of(s: Option<String>) -> Option<Seq<char>> {
    match s {
        Some(t) => Some(t@),
        None => None,
    }
}

impl View for ExecutionResult {
    type V = OutcomeView;

    open spec fn view(&self) -> OutcomeView {
        OutcomeView { success: self.success, output: self.output@, error: text_of(self.error) }
    }
}

/// What a finished process left behind: whether it exited with status
/// zero, and the text of its two streams.
#[derive(Debug)]
pub struct ProcessOutput {
    pub success: bool,
    pub stdout: String,
    pub stderr: String,
}

/// A finished process as plain values.
pub ghost struct ProcessView {
    pub success: bool,
    pub stdout: Seq<char>,
    pub stderr: Seq<char>,
}

impl View for ProcessOutput {
    type V = ProcessView;

    open spec fn view(&self) -> ProcessView {
        ProcessView { success: self.success, stdout: self.stdout@, stderr: self.stderr@ }
    }
}

/// The shapes a toolchain comes in.
#[derive(Clone, Copy, Debug, PartialEq, Eq, Structural)]
pub enum Backend {
    /// Compiled ahead of time to a program that is run by itself.
    Native,
    /// Compiled to a class that a runtime executes.
    Bytecode,
    /// Run from source by an interpreter.
    Interpreted,
    /// No toolchain is known.
    Unsupported,
}

/// Where the adapter stands in the build of one source.
#[derive(Clone, Copy, Debug, PartialEq, Eq, Structural)]
pub enum Stage {
    /// Nothing was asked for yet.
    Start,
    /// Asked whether an artifact of an earlier build is in the way.
    StaleProbe,
    /// Asked for the stale artifact to be removed.
    StaleRemoval,
    /// Asked for the compiler to run.
    Compiling,
    /// Asked whether the compiler left its artifact where it should.
    ArtifactProbe,
    /// Asked for the absolute path of the artifact.
    Resolving,
    /// Asked for the program to run.
    Running,
    /// The attempt is over.
    Done,
}

/// What the adapter is told.
#[derive(Debug)]
pub enum Report {
    /// The attempt may begin.
    Begin,
    /// Whether the probed path exists.
    Exists(bool),
    /// The file was removed.
    Removed,
    /// The process ran to its end.
    Exited(ProcessOutput),
    /// The absolute path asked for.
    Resolved(String),
    /// The request could not be carried out; the text says why.
    IoFailed(String),
}

pub ghost enum ReportView {
    Begin,
    Exists(bool),
    Removed,
    Exited(ProcessView),
    Resolved(Seq<char>),
    IoFailed(Seq<char>),
}

impl View for Report {
    type V = ReportView;

    open spec fn view(&self) -> ReportView {
        match *self {
            Report::Begin => ReportView::Begin,
            Report::Exists(found) => ReportView::Exists(found),
            Report::Removed => ReportView::Removed,
            Report::Exited(process) => ReportView::Exited(process@),
            Report::Resolved(path) => ReportView::Resolved(path@),
            Report::IoFailed(reason) => ReportView::IoFailed(reason@),
        }
    }
}

/// What the adapter asks for, or how it ends.
#[derive(Debug)]
pub enum Request {
    /// Say whether `path` exists.
    Probe { path: String },
    /// Remove the file at `path`.
    Remove { path: String },
    /// Run `program` with `args`, in the directory `dir` where one is
    /// given, and capture its exit status and streams.
    Spawn { program: String, args: Vec<String>, dir: Option<String> },
    /// Give the absolute path of `path`.
    Resolve { path: String },
    /// The attempt ended with this outcome.
    Finish(ExecutionResult),
    /// The attempt cannot go on; the text says why.
    Abort(String),
}

pub ghost enum RequestView {
    Probe { path: Seq<char> },
    Remove { path: Seq<char> },
    Spawn { program: Seq<char>, args: Seq<Seq<char>>, dir: Option<Seq<char>> },
    Resolve { path: Seq<char> },
    Finish(OutcomeView),
    Abort(Seq<char>),
}

impl View for Request {
    type V = RequestView;

    open spec fn view(&self) -> RequestView {
        match *self {
            Request::Probe { path } => RequestView::Probe { path: path@ },
            Request::Remove { path } => RequestView::Remove { path: path@ },
            Request::Spawn { program, args, dir } => RequestView::Spawn {
                program: program@,
                args: texts(args@),
                dir: text_of(dir),
            },
            Request::Resolve { path } => RequestView::Resolve { path: path@ },
            Request::Finish(outcome) => RequestView::Finish(outcome@),
            Request::Abort(reason) => RequestView::Abort(reason@),
        }
    }
}

/// The shape of the toolchain of a language.
pub open spec fn backend_of(language: Language) -> Backend {
    match language {
        Language::Rust => Backend::Native,
        Language::Cpp => Backend::Native,
        Language::Java => Backend::Bytecode,
        Language::Python => Backend::Interpreted,
        Language::Unsupported => Backend::Unsupported,
    }
}

/// The program that compiles a language: each native language has its
/// own compiler, and every other request to compile goes to the bytecode
/// compiler.
pub open spec fn compiler_of(language: Language) -> Seq<char> {
    match language {
        Language::Rust => "rustc"@,
        Language::Cpp => "g++"@,
        _ => "javac"@,
    }
}

/// Where the compiler of the task's language is expected to leave its
/// artifact.
pub open spec fn artifact_path(agent: AipaView, task: TaskView) -> Seq<char> {
    if backend_of(language_of(task.language)) == Backend::Bytecode {
        class_path(agent)
    } else {
        binary_path(agent, task)
    }
}

/// The failed outcome that carries `detail` and no output.
pub open spec fn failed(detail: Seq<char>) -> OutcomeView {
    OutcomeView { success: false, output: Seq::empty(), error: Some(detail) }
}

/// The outcome of an attempt whose last process was `process`: it
/// succeeded if the process did, its output is what the process wrote,
/// and only a failure carries the process's complaints.
pub open spec fn outcome_of(process: ProcessView) -> OutcomeView {
    OutcomeView {
        success: process.success,
        output: process.stdout,
        error: if process.success {
            None
        } else {
            Some(process.stderr)
        },
    }
}

/// What is said when a compiler reported success and left no artifact at
/// `path`.
pub open spec fn missing_message(backend: Backend, path: Seq<char>) -> Seq<char> {
    let opening = if backend == Backend::Bytecode {
        "Class file not created at \""@
    } else {
        "Binary not created at \""@
    };
    opening + path + "\""@
}

/// Whether `part` occurs somewhere in `text`.
pub open spec fn mentions(text: Seq<char>, part: Seq<char>) -> bool {
    exists|i: int| has_at(text, i, part)
}

/// The call of the compiler on the source of a task.
pub open spec fn compile_request(agent: AipaView, task: TaskView) -> RequestView {
    let language = language_of(task.language);
    RequestView::Spawn {
        program: compiler_of(language),
        args: if backend_of(language) == Backend::Bytecode {
            seq![source_path(agent, task)]
        } else {
            seq![source_path(agent, task), "-o"@, binary_path(agent, task)]
        },
        dir: Some(agent.project_dir),
    }
}

/// The call of the interpreter on the source of a task.
pub open spec fn interpret_request(agent: AipaView, task: TaskView) -> RequestView {
    RequestView::Spawn {
        program: "python"@,
        args: seq![source_path(agent, task)],
        dir: None,
    }
}

/// The call of the runtime on the generated entry point.
pub open spec fn runtime_request(agent: AipaView) -> RequestView {
    RequestView::Spawn {
        program: "java"@,
        args: seq!["project_print_hello"@],
        dir: Some(agent.project_dir),
    }
}

/// The call of a compiled program by its absolute path.
pub open spec fn program_request(resolved: Seq<char>) -> RequestView {
    RequestView::Spawn { program: resolved, args: Seq::empty(), dir: None }
}

/// How far a stage is from the end of the attempt, in requests.
pub open spec fn stage_rank(stage: Stage) -> nat {
    match stage {
        Stage::Start => 7,
        Stage::StaleProbe => 6,
        Stage::StaleRemoval => 5,
        Stage::Compiling => 4,
        Stage::ArtifactProbe => 3,
        Stage::Resolving => 2,
        Stage::Running => 1,
        Stage::Done => 0,
    }
}

/// Whether a request ends the attempt.
pub open spec fn is_final(request: RequestView) -> bool {
    request is Finish || request is Abort
}

/// The adapter's rule: the stage it moves to and the request it makes when
/// it stands at `stage` and is told `report`.
///
/// An unsupported language fails at once. An interpreted one goes straight
/// to the run. A compiled one first clears a stale artifact out of the way,
/// compiles, checks that the artifact is where it was asked for, and only
/// then runs it. A failed request aborts the attempt, and so does a report
/// that does not answer the request that was made.
pub open spec fn build_step(
    agent: AipaView,
    task: TaskView,
    stage: Stage,
    report: ReportView,
) -> (Stage, RequestView) {
    let backend = backend_of(language_of(task.language));
    let artifact = artifact_path(agent, task);
    match (stage, report) {
        (Stage::Start, ReportView::Begin) => {
            if backend == Backend::Unsupported {
                (Stage::Done, RequestView::Finish(failed("unsupported language"@)))
            } else if backend == Backend::Interpreted {
                (Stage::Running, interpret_request(agent, task))
            } else {
                (Stage::StaleProbe, RequestView::Probe { path: artifact })
            }
        },
        (Stage::StaleProbe, ReportView::Exists(found)) => {
            if found {
                (Stage::StaleRemoval, RequestView::Remove { path: artifact })
            } else {
                (Stage::Compiling, compile_request(agent, task))
            }
        },
        (Stage::StaleRemoval, ReportView::Removed) => (
            Stage::Compiling,
            compile_request(agent, task),
        ),
        (Stage::Compiling, ReportView::Exited(process)) => {
            if process.success {
                (Stage::ArtifactProbe, RequestView::Probe { path: artifact })
            } else {
                (Stage::Done, RequestView::Finish(failed(process.stderr)))
            }
        },
        (Stage::ArtifactProbe, ReportView::Exists(found)) => {
            if !found {
                (Stage::Done, RequestView::Finish(failed(missing_message(backend, artifact))))
            } else if backend == Backend::Bytecode {
                (Stage::Running, runtime_request(agent))
            } else {
                (Stage::Resolving, RequestView::Resolve { path: artifact })
            }
        },
        (Stage::Resolving, ReportView::Resolved(resolved)) => (
            Stage::Running,
            program_request(resolved),
        ),
        (Stage::Running, ReportView::Exited(process)) => (
            Stage::Done,
            RequestView::Finish(outcome_of(process)),
        ),
        (Stage::Done, _) => (Stage::Done, RequestView::Abort("Attempt is already over"@)),
        (Stage::Running, ReportView::IoFailed(reason)) => {
            if backend == Backend::Native {
                (Stage::Done, RequestView::Abort("Failed to execute binary: "@ + reason))
            } else {
                (Stage::Done, RequestView::Abort(reason))
            }
        },
        (_, ReportView::IoFailed(reason)) => (Stage::Done, RequestView::Abort(reason)),
        _ => (Stage::Done, RequestView::Abort("Report does not answer the request"@)),
    }
}

impl Language {
    /// The shape of this language's toolchain.
    pub fn backend(self) -> (backend: Backend)
        ensures
            backend == backend_of(self),
    {
        match self {
            Language::Rust => Backend::Native,
            Language::Cpp => Backend::Native,
            Language::Java => Backend::Bytecode,
            Language::Python => Backend::Interpreted,
            Language::Unsupported => Backend::Unsupported,
        }
    }
}

impl ExecutionResult {
    /// The failed outcome that carries `detail` and no output.
    pub fn failure(detail: String) -> (outcome: ExecutionResult)
        ensures
            outcome@ == failed(detail@),
    {
        ExecutionResult { success: false, output: String::new(), error: Some(detail) }
    }

    /// The outcome of an attempt whose last process was `process`.
    pub fn of_process(process: ProcessOutput) -> (outcome: ExecutionResult)
        ensures
            outcome@ == outcome_of(process@),
    {
        let error = if process.success {
            None
        } else {
            Some(process.stderr)
        };
        ExecutionResult { success: process.success, output: process.stdout, error }
    }
}

impl AIPA {
    /// Where the compiler of the task's language is expected to leave its
    /// artifact.
    pub fn resolve_artifact_path(&self, task: &Task) -> (path: String)
        ensures
            path@ == artifact_path(self@, task@),
    {
        match Language::of(task.language.as_str()).backend() {
            Backend::Bytecode => self.resolve_class_path(),
            _ => self.resolve_binary_path(task),
        }
    }

    /// The call of the compiler on the source of `task`.
    pub fn compile_command(&self, task: &Task) -> (request: Request)
        ensures
            request@ == compile_request(self@, task@),
    {
        let language = Language::of(task.language.as_str());
        let program = match language {
            Language::Rust => String::from_str("rustc"),
            Language::Cpp => String::from_str("g++"),
            _ => String::from_str("javac"),
        };
        let mut args: Vec<String> = Vec::new();
        args.push(self.resolve_source_path(task));
        match language.backend() {
            Backend::Bytecode => {},
            _ => {
                args.push(String::from_str("-o"));
                args.push(self.resolve_binary_path(task));
            },
        }
        let request = Request::Spawn { program, args, dir: Some(self.project_dir.clone()) };
        assert(request@->Spawn_args =~= compile_request(self@, task@)->Spawn_args);
        request
    }

    /// The call of the interpreter on the source of `task`.
    pub fn interpret_command(&self, task: &Task) -> (request: Request)
        ensures
            request@ == interpret_request(self@, task@),
    {
        let mut args: Vec<String> = Vec::new();
        args.push(self.resolve_source_path(task));
        let request = Request::Spawn { program: String::from_str("python"), args, dir: None };
        assert(request@->Spawn_args =~= interpret_request(self@, task@)->Spawn_args);
        request
    }

    /// The call of the runtime on the generated entry point.
    pub fn runtime_command(&self) -> (request: Request)
        ensures
            request@ == runtime_request(self@),
    {
        let mut args: Vec<String> = Vec::new();
        args.push(String::from_str("project_print_hello"));
        let request = Request::Spawn {
            program: String::from_str("java"),
            args,
            dir: Some(self.project_dir.clone()),
        };
        assert(request@->Spawn_args =~= runtime_request(self@)->Spawn_args);
        request
    }

    /// The call of the compiled program at `resolved`.
    pub fn program_command(resolved: String) -> (request: Request)
        ensures
            request@ == program_request(resolved@),
    {
        let request = Request::Spawn { program: resolved, args: Vec::new(), dir: None };
        assert(request@->Spawn_args =~= program_request(resolved@)->Spawn_args);
        request
    }

    /// What is said when the compiler left no artifact at `path`.
    pub fn missing_artifact_message(backend: Backend, path: &str) -> (message: String)
        ensures
            message@ == missing_message(backend, path@),
    {
        let mut message = match backend {
            Backend::Bytecode => String::from_str("Class file not created at \""),
            _ => String::from_str("Binary not created at \""),
        };
        message.append(path);
        message.append("\"");
        message
    }

    /// One step of building and running the source of `task`: given the
    /// stage the attempt stands at and the report on its last request, the
    /// stage it moves to and its next request.
    ///
    /// Every step brings the attempt nearer its end, and the attempt is
    /// over exactly when the request is a `Finish` or an `Abort`.
    pub fn execute_code(&self, task: &Task, stage: Stage, report: Report) -> (next: (
        Stage,
        Request,
    ))
        ensures
            (next.0, next.1@) == build_step(self@, task@, stage, report@),
            stage != Stage::Done ==> stage_rank(next.0) < stage_rank(stage),
            is_final(next.1@) <==> next.0 == Stage::Done,
    {
        let backend = Language::of(task.language.as_str()).backend();
        match (stage, report) {
            (Stage::Start, Report::Begin) => {
                match backend {
                    Backend::Unsupported => (
                        Stage::Done,
                        Request::Finish(
                            ExecutionResult::failure(String::from_str("unsupported language")),
                        ),
                    ),
                    Backend::Interpreted => (Stage::Running, self.interpret_command(task)),
                    _ => (
                        Stage::StaleProbe,
                        Request::Probe { path: self.resolve_artifact_path(task) },
                    ),
                }
            },
            (Stage::StaleProbe, Report::Exists(found)) => {
                if found {
                    (Stage::StaleRemoval, Request::Remove { path: self.resolve_artifact_path(task) })
                } else {
                    (Stage::Compiling, self.compile_command(task))
                }
            },
            (Stage::StaleRemoval, Report::Removed) => (
                Stage::Compiling,
                self.compile_command(task),
            ),
            (Stage::Compiling, Report::Exited(process)) => {
                if process.success {
                    (Stage::ArtifactProbe, Request::Probe { path: self.resolve_artifact_path(task) })
                } else {
                    (Stage::Done, Request::Finish(ExecutionResult::failure(process.stderr)))
                }
            },
            (Stage::ArtifactProbe, Report::Exists(found)) => {
                let artifact = self.resolve_artifact_path(task);
                if !found {
                    let message = AIPA::missing_artifact_message(backend, artifact.as_str());
                    (Stage::Done, Request::Finish(ExecutionResult::failure(message)))
                } else {
                    match backend {
                        Backend::Bytecode => (Stage::Running, self.runtime_command()),
                        _ => (Stage::Resolving, Request::Resolve { path: artifact }),
                    }
                }
            },
            (Stage::Resolving, Report::Resolved(resolved)) => (
                Stage::Running,
                AIPA::program_command(resolved),
            ),
            (Stage::Running, Report::Exited(process)) => (
                Stage::Done,
                Request::Finish(ExecutionResult::of_process(process)),
            ),
            (Stage::Done, _) => (
                Stage::Done,
                Request::Abort(String::from_str("Attempt is already over")),
            ),
            (Stage::Running, Report::IoFailed(reason)) => {
                match backend {
                    Backend::Native => {
                        let mut message = String::from_str("Failed to execute binary: ");
                        message.append(reason.as_str());
                        (Stage::Done, Request::Abort(message))
                    },
                    _ => (Stage::Done, Request::Abort(reason)),
                }
            },
            (_, Report::IoFailed(reason)) => (Stage::Done, Request::Abort(reason)),
            _ => (
                Stage::Done,
                Request::Abort(String::from_str("Report does not answer the request")),
            ),
        }
    }
}

/// A language without a toolchain fails at the first step, before any
/// file is probed or any process started.
pub proof fn lemma_unsupported_fails_at_once(agent: AipaView, task: TaskView)
    requires
        language_of(task.language) == Language::Unsupported,
    ensures
        build_step(agent, task, Stage::Start, ReportView::Begin) == (
            Stage::Done,
            RequestView::Finish(failed("unsupported language"@)),
        ),
{
}

/// A compiler that exits with a failure ends the attempt: the outcome is a
/// failure whose detail is what the compiler wrote to its error stream,
/// and nothing is run.
pub proof fn lemma_failed_compile_ends_attempt(
    agent: AipaView,
    task: TaskView,
    process: ProcessView,
)
    requires
        !process.success,
    ensures
        build_step(agent, task, Stage::Compiling, ReportView::Exited(process)) == (
            Stage::Done,
            RequestView::Finish(failed(process.stderr)),
        ),
{
}

/// Where the compiler reported success and its artifact is not found, the
/// attempt fails with a detail that holds the path at which the artifact
/// was expected.
pub proof fn lemma_missing_artifact_names_path(agent: AipaView, task: TaskView)
    ensures
        ({
            let next = build_step(agent, task, Stage::ArtifactProbe, ReportView::Exists(false));
            let path = artifact_path(agent, task);
            &&& next.0 == Stage::Done
            &&& next.1 is Finish
            &&& !next.1->Finish_0.success
            &&& next.1->Finish_0.error is Some
            &&& mentions(next.1->Finish_0.error->Some_0, path)
        }),
{
    let backend = backend_of(language_of(task.language));
    let path = artifact_path(agent, task);
    let message = missing_message(backend, path);
    let opening = if backend == Backend::Bytecode {
        "Class file not created at \""@
    } else {
        "Binary not created at \""@
    };
    assert(message.subrange(opening.len() as int, (opening.len() + path.len()) as int) =~= path);
    assert(has_at(message, opening.len() as int, path));
}

/// The outcome of a run is the program's: it succeeded if the program
/// exited with status zero, and carries an error detail only if it did
/// not.
pub proof fn lemma_run_decides_outcome(agent: AipaView, task: TaskView, process: ProcessView)
    ensures
        ({
            let next = build_step(agent, task, Stage::Running, ReportView::Exited(process));
            &&& next.0 == Stage::Done
            &&& next.1 is Finish
            &&& next.1->Finish_0.success == process.success
            &&& next.1->Finish_0.output == process.stdout
            &&& next.1->Finish_0.error is None <==> process.success
        }),
{
}

/// Every step brings an attempt nearer its end, whatever is reported: an
/// attempt is over after at most seven requests.
pub proof fn lemma_build_progress(
    agent: AipaView,
    task: TaskView,
    stage: Stage,
    report: ReportView,
)
    ensures
        ({
            let next = build_step(agent, task, stage, report);
            &&& stage != Stage::Done ==> stage_rank(next.0) < stage_rank(stage)
            &&& is_final(next.1) <==> next.0 == Stage::Done
        }),
{
}

/// A process that ran to its end never aborts an attempt: however the
/// compiler or the program exited, the adapter goes on or finishes with an
/// outcome.
pub proof fn lemma_exit_never_aborts(
    agent: AipaView,
    task: TaskView,
    stage: Stage,
    process: ProcessView,
)
    requires
        stage == Stage::Compiling || stage == Stage::Running,
    ensures
        !(build_step(agent, task, stage, ReportView::Exited(process)).1 is Abort),
{
}

/// What is compiled or interpreted is the source artifact of the task:
/// the first argument of the compiler and of the interpreter is the path
/// at which the task's source lies.
pub proof fn lemma_toolchain_reads_source(agent: AipaView, task: TaskView)
    ensures
        compile_request(agent, task)->Spawn_args[0] == source_path(agent, task),
        interpret_request(agent, task)->Spawn_args[0] == source_path(agent, task),
        backend_of(language_of(task.language)) == Backend::Native ==> compile_request(
            agent,
            task,
        )->Spawn_args.last() == artifact_path(agent, task),
{
}

/// The steps of an attempt come in order. The compiler is called only
/// once no stale artifact is in the way: none was found, or the one found
/// was removed. A compiled program is resolved, and run, only after its
/// artifact was found where the compiler was told to put it; only an
/// interpreted source is run from the start.
pub proof fn lemma_steps_come_in_order(
    agent: AipaView,
    task: TaskView,
    stage: Stage,
    report: ReportView,
)
    ensures
        ({
            let next = build_step(agent, task, stage, report);
            let backend = backend_of(language_of(task.language));
            &&& next.0 == Stage::Compiling ==> (stage == Stage::StaleProbe && report
                == ReportView::Exists(false)) || (stage == Stage::StaleRemoval && report
                == ReportView::Removed)
            &&& next.0 == Stage::Resolving ==> stage == Stage::ArtifactProbe && report
                == ReportView::Exists(true)
            &&& next.0 == Stage::Running ==> (stage == Stage::Start && backend
                == Backend::Interpreted) || (stage == Stage::ArtifactProbe && report
                == ReportView::Exists(true) && backend == Backend::Bytecode) || (stage
                == Stage::Resolving && report is Resolved)
        }),
{
}

} // verus!
