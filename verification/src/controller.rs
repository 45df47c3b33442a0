//! The retry controller: what is done next for a task, from its first
//! candidate source to the message that closes it.
//!
//! Like the toolchain adapter, the controller is stepped. It hands out a
//! command, is told by a signal what came of it, and answers with the next
//! command. It allows a bounded number of attempts, asks for a fix after
//! each failed one but the last, and has the workspace cleaned before it
//! returns its message.

use crate::task::{generated_source, AipaView, Task, TaskView, AIPA};
use crate::text::{decimal, push_decimal};
use crate::toolchain::{text_of, ExecutionResult, OutcomeView};
use crate::workspace::source_path;
use vstd::prelude::*;
use vstd::string::StringExecFns;

verus! {

/// How often the source of one task is built and run at most.
pub const MAX_ATTEMPTS: usize = 3;

/// Where the controller stands with a task.
#[derive(Debug)]
pub enum Phase {
    /// Nothing was asked for yet.
    Start,
    /// Asked whether a source artifact is there already.
    Locating,
    /// Asked for the text of the artifact that was found.
    Loading,
    /// Asked for `code` to be written as the candidate of `attempt`.
    Storing { attempt: usize, code: String },
    /// Asked for `code` to be built and run, for the `attempt`-th time.
    Executing { attempt: usize, code: String },
    /// Asked for a fix after the `attempt`-th failure.
    Repairing { attempt: usize },
    /// Asked for the workspace to be cleaned; `message` is what will be
    /// returned.
    Cleaning { message: String },
    /// The task is over.
    Done,
}

pub ghost enum PhaseView {
    Start,
    Locating,
    Loading,
    Storing { attempt: nat, code: Seq<char> },
    Executing { attempt: nat, code: Seq<char> },
    Repairing { attempt: nat },
    Cleaning { message: Seq<char> },
    Done,
}

impl View for Phase {
    type V = PhaseView;

    open spec fn view(&self) -> PhaseView {
        match *self {
            Phase::Start => PhaseView::Start,
            Phase::Locating => PhaseView::Locating,
            Phase::Loading => PhaseView::Loading,
            Phase::Storing { attempt, code } => PhaseView::Storing {
                attempt: attempt as nat,
                code: code@,
            },
            Phase::Executing { attempt, code } => PhaseView::Executing {
                attempt: attempt as nat,
                code: code@,
            },
            Phase::Repairing { attempt } => PhaseView::Repairing { attempt: attempt as nat },
            Phase::Cleaning { message } => PhaseView::Cleaning { message: message@ },
            Phase::Done => PhaseView::Done,
        }
    }
}

/// What the controller is told.
#[derive(Debug)]
pub enum Signal {
    /// The task may begin.
    Begin,
    /// Whether the source artifact exists.
    Found(bool),
    /// The text of the source artifact.
    Loaded(String),
    /// The candidate was written.
    Stored,
    /// The candidate was built and run, with this outcome.
    Ran(ExecutionResult),
    /// The fix that was obtained.
    Fixed(String),
    /// The workspace was cleaned.
    Cleaned,
    /// The command could not be carried out; the text says why.
    Failed(String),
}

pub ghost enum SignalView {
    Begin,
    Found(bool),
    Loaded(Seq<char>),
    Stored,
    Ran(OutcomeView),
    Fixed(Seq<char>),
    Cleaned,
    Failed(Seq<char>),
}

impl View for Signal {
    type V = SignalView;

    open spec fn view(&self) -> SignalView {
        match *self {
            Signal::Begin => SignalView::Begin,
            Signal::Found(found) => SignalView::Found(found),
            Signal::Loaded(text) => SignalView::Loaded(text@),
            Signal::Stored => SignalView::Stored,
            Signal::Ran(outcome) => SignalView::Ran(outcome@),
            Signal::Fixed(text) => SignalView::Fixed(text@),
            Signal::Cleaned => SignalView::Cleaned,
            Signal::Failed(reason) => SignalView::Failed(reason@),
        }
    }
}

/// What the controller asks for, or how it ends.
#[derive(Debug)]
pub enum Command {
    /// Say whether the file at `path` exists.
    Locate { path: String },
    /// Give the text of the file at `path`.
    Load { path: String },
    /// Write `text` to the file at `path`, replacing what is there.
    Store { path: String, text: String },
    /// Build and run the candidate.
    Execute,
    /// Report `notice`, then obtain a fix for `source`, which failed with
    /// `error`.
    AskFix { notice: String, source: String, error: String },
    /// Report `last_notice`, if there is one, then remove the artifacts of
    /// the task.
    Cleanup { last_notice: Option<String> },
    /// The task ended with this message.
    Return(String),
    /// The task cannot go on; the text says why.
    Abort(String),
}

pub ghost enum CommandView {
    Locate { path: Seq<char> },
    Load { path: Seq<char> },
    Store { path: Seq<char>, text: Seq<char> },
    Execute,
    AskFix { notice: Seq<char>, source: Seq<char>, error: Seq<char> },
    Cleanup { last_notice: Option<Seq<char>> },
    Return(Seq<char>),
    Abort(Seq<char>),
}

impl View for Command {
    type V = CommandView;

    open spec fn view(&self) -> CommandView {
        match *self {
            Command::Locate { path } => CommandView::Locate { path: path@ },
            Command::Load { path } => CommandView::Load { path: path@ },
            Command::Store { path, text } => CommandView::Store { path: path@, text: text@ },
            Command::Execute => CommandView::Execute,
            Command::AskFix { notice, source, error } => CommandView::AskFix {
                notice: notice@,
                source: source@,
                error: error@,
            },
            Command::Cleanup { last_notice } => CommandView::Cleanup {
                last_notice: text_of(last_notice),
            },
            Command::Return(message) => CommandView::Return(message@),
            Command::Abort(reason) => CommandView::Abort(reason@),
        }
    }
}

/// The detail of a failure: what the outcome says went wrong, or a
/// placeholder where it says nothing.
pub open spec fn detail_of(outcome: OutcomeView) -> Seq<char> {
    match outcome.error {
        Some(detail) => detail,
        None => "unknown error"@,
    }
}

/// The message of a task that succeeded with `output`.
pub open spec fn success_message(output: Seq<char>) -> Seq<char> {
    "Success! Output: "@ + output
}

/// The message of a task whose last attempt failed with `detail`.
pub open spec fn exhausted_message(detail: Seq<char>) -> Seq<char> {
    "Error after "@ + decimal(MAX_ATTEMPTS as nat) + " attempts: "@ + detail
}

/// What is reported when the `attempt`-th attempt failed with `detail`.
pub open spec fn failure_notice(attempt: nat, detail: Seq<char>) -> Seq<char> {
    "Attempt "@ + decimal(attempt) + "/"@ + decimal(MAX_ATTEMPTS as nat) + " failed: "@ + detail
}

impl PhaseView {
    /// The attempt a phase belongs to: none before the first candidate is
    /// at hand, all of them once the task is being closed.
    pub open spec fn attempt(self) -> nat {
        match self {
            PhaseView::Start | PhaseView::Locating | PhaseView::Loading => 0,
            PhaseView::Storing { attempt, .. } => attempt,
            PhaseView::Executing { attempt, .. } => attempt,
            PhaseView::Repairing { attempt } => attempt,
            PhaseView::Cleaning { .. } | PhaseView::Done => MAX_ATTEMPTS as nat,
        }
    }

    /// Attempts are counted from one and stay within the budget, and a fix
    /// is asked for only while an attempt is left.
    pub open spec fn wf(self) -> bool {
        match self {
            PhaseView::Storing { attempt, .. } => 1 <= attempt <= MAX_ATTEMPTS,
            PhaseView::Executing { attempt, .. } => 1 <= attempt <= MAX_ATTEMPTS,
            PhaseView::Repairing { attempt } => 1 <= attempt < MAX_ATTEMPTS,
            _ => true,
        }
    }

    /// A bound on the number of commands that are still to come.
    pub open spec fn rank(self) -> int {
        match self {
            PhaseView::Start => 3 * MAX_ATTEMPTS + 4,
            PhaseView::Locating => 3 * MAX_ATTEMPTS + 3,
            PhaseView::Loading => 3 * MAX_ATTEMPTS + 1,
            PhaseView::Storing { attempt, .. } => 3 * (MAX_ATTEMPTS - attempt) + 4,
            PhaseView::Executing { attempt, .. } => 3 * (MAX_ATTEMPTS - attempt) + 3,
            PhaseView::Repairing { attempt } => 3 * (MAX_ATTEMPTS - attempt) + 2,
            PhaseView::Cleaning { .. } => 1,
            PhaseView::Done => 0,
        }
    }
}

/// The controller's rule: the phase it moves to and the command it gives
/// when it stands at `phase` and is told `signal`.
///
/// A task starts from the artifact that is there, or else from a generated
/// candidate, which is stored first. Each candidate is executed. Success
/// closes the task; so does a failure on the last attempt; any other
/// failure asks for a fix, which is stored and executed as the next
/// attempt. A closed task is cleaned up and then returns its message,
/// whether or not the cleaning went well. A command that fails at any
/// other point aborts the task, and so does a signal that does not answer
/// the command that was given.
pub open spec fn control_step(
    agent: AipaView,
    task: TaskView,
    phase: PhaseView,
    signal: SignalView,
) -> (PhaseView, CommandView) {
    let path = source_path(agent, task);
    match (phase, signal) {
        (PhaseView::Start, SignalView::Begin) => (
            PhaseView::Locating,
            CommandView::Locate { path },
        ),
        (PhaseView::Locating, SignalView::Found(found)) => {
            if found {
                (PhaseView::Loading, CommandView::Load { path })
            } else {
                (
                    PhaseView::Storing { attempt: 1, code: generated_source(task) },
                    CommandView::Store { path, text: generated_source(task) },
                )
            }
        },
        (PhaseView::Loading, SignalView::Loaded(text)) => (
            PhaseView::Executing { attempt: 1, code: text },
            CommandView::Execute,
        ),
        (PhaseView::Storing { attempt, code }, SignalView::Stored) => (
            PhaseView::Executing { attempt, code },
            CommandView::Execute,
        ),
        (PhaseView::Executing { attempt, code }, SignalView::Ran(outcome)) => {
            if outcome.success {
                (
                    PhaseView::Cleaning { message: success_message(outcome.output) },
                    CommandView::Cleanup { last_notice: None },
                )
            } else if attempt < MAX_ATTEMPTS {
                (
                    PhaseView::Repairing { attempt },
                    CommandView::AskFix {
                        notice: failure_notice(attempt, detail_of(outcome)),
                        source: code,
                        error: detail_of(outcome),
                    },
                )
            } else {
                (
                    PhaseView::Cleaning { message: exhausted_message(detail_of(outcome)) },
                    CommandView::Cleanup {
                        last_notice: Some(failure_notice(attempt, detail_of(outcome))),
                    },
                )
            }
        },
        (PhaseView::Repairing { attempt }, SignalView::Fixed(text)) => {
            if attempt < MAX_ATTEMPTS {
                (
                    PhaseView::Storing { attempt: attempt + 1, code: text },
                    CommandView::Store { path, text },
                )
            } else {
                (PhaseView::Done, CommandView::Abort("No attempt is left for a fix"@))
            }
        },
        (PhaseView::Cleaning { message }, SignalView::Cleaned) => (
            PhaseView::Done,
            CommandView::Return(message),
        ),
        (PhaseView::Cleaning { message }, SignalView::Failed(_)) => (
            PhaseView::Done,
            CommandView::Return(message),
        ),
        (PhaseView::Done, _) => (PhaseView::Done, CommandView::Abort("Task is already over"@)),
        (_, SignalView::Failed(reason)) => (PhaseView::Done, CommandView::Abort(reason)),
        _ => (PhaseView::Done, CommandView::Abort("Signal does not answer the command"@)),
    }
}

/// Whether a command ends the task.
pub open spec fn is_last(command: CommandView) -> bool {
    command is Return || command is Abort
}

impl ExecutionResult {
    /// The detail of a failure: what went wrong, or a placeholder where
    /// the outcome does not say.
    pub fn detail(&self) -> (detail: String)
        ensures
            detail@ == detail_of(self@),
    {
        match &self.error {
            Some(text) => text.clone(),
            None => String::from_str("unknown error"),
        }
    }
}

/// The message of a task that succeeded with `output`.
pub fn success_text(output: &str) -> (message: String)
    ensures
        message@ == success_message(output@),
{
    let mut message = String::from_str("Success! Output: ");
    message.append(output);
    message
}

/// The message of a task whose last attempt failed with `detail`.
pub fn exhausted_text(detail: &str) -> (message: String)
    ensures
        message@ == exhausted_message(detail@),
{
    let mut message = String::from_str("Error after ");
    push_decimal(&mut message, MAX_ATTEMPTS);
    message.append(" attempts: ");
    message.append(detail);
    message
}

/// What is reported when the `attempt`-th attempt failed with `detail`.
pub fn failure_text(attempt: usize, detail: &str) -> (notice: String)
    ensures
        notice@ == failure_notice(attempt as nat, detail@),
{
    let mut notice = String::from_str("Attempt ");
    push_decimal(&mut notice, attempt);
    notice.append("/");
    push_decimal(&mut notice, MAX_ATTEMPTS);
    notice.append(" failed: ");
    notice.append(detail);
    notice
}

impl AIPA {
    /// One step of processing `task`: given the phase the task stands at
    /// and the signal on its last command, the phase it moves to and its
    /// next command.
    ///
    /// The attempt count stays within the budget and never falls, every
    /// step brings the task nearer its end, and the task is over exactly
    /// when the command is a `Return` or an `Abort`.
    pub fn process_task(&self, task: &Task, phase: Phase, signal: Signal) -> (next: (
        Phase,
        Command,
    ))
        ensures
            (next.0@, next.1@) == control_step(self@, task@, phase@, signal@),
            phase@.wf() ==> next.0@.wf(),
            phase@.wf() ==> phase@.attempt() <= next.0@.attempt() <= MAX_ATTEMPTS,
            phase@.wf() && !(phase is Done) ==> next.0@.rank() < phase@.rank(),
            is_last(next.1@) <==> next.0 is Done,
            next.1 is Execute ==> next.0 is Executing,
    {
        match (phase, signal) {
            (Phase::Start, Signal::Begin) => (
                Phase::Locating,
                Command::Locate { path: self.resolve_source_path(task) },
            ),
            (Phase::Locating, Signal::Found(found)) => {
                let path = self.resolve_source_path(task);
                if found {
                    (Phase::Loading, Command::Load { path })
                } else {
                    let code = self.generate_code(task);
                    let text = code.clone();
                    (Phase::Storing { attempt: 1, code }, Command::Store { path, text })
                }
            },
            (Phase::Loading, Signal::Loaded(text)) => (
                Phase::Executing { attempt: 1, code: text },
                Command::Execute,
            ),
            (Phase::Storing { attempt, code }, Signal::Stored) => (
                Phase::Executing { attempt, code },
                Command::Execute,
            ),
            (Phase::Executing { attempt, code }, Signal::Ran(outcome)) => {
                if outcome.success {
                    let message = success_text(outcome.output.as_str());
                    (Phase::Cleaning { message }, Command::Cleanup { last_notice: None })
                } else {
                    let error = outcome.detail();
                    let notice = failure_text(attempt, error.as_str());
                    if attempt < MAX_ATTEMPTS {
                        (
                            Phase::Repairing { attempt },
                            Command::AskFix { notice, source: code, error },
                        )
                    } else {
                        let message = exhausted_text(error.as_str());
                        (Phase::Cleaning { message }, Command::Cleanup { last_notice: Some(notice) })
                    }
                }
            },
            (Phase::Repairing { attempt }, Signal::Fixed(text)) => {
                if attempt < MAX_ATTEMPTS {
                    let path = self.resolve_source_path(task);
                    let code = text.clone();
                    (Phase::Storing { attempt: attempt + 1, code }, Command::Store { path, text })
                } else {
                    (
                        Phase::Done,
                        Command::Abort(String::from_str("No attempt is left for a fix")),
                    )
                }
            },
            (Phase::Cleaning { message }, Signal::Cleaned) => (
                Phase::Done,
                Command::Return(message),
            ),
            (Phase::Cleaning { message }, Signal::Failed(_)) => (
                Phase::Done,
                Command::Return(message),
            ),
            (Phase::Done, _) => (
                Phase::Done,
                Command::Abort(String::from_str("Task is already over")),
            ),
            (_, Signal::Failed(reason)) => (Phase::Done, Command::Abort(reason)),
            _ => (
                Phase::Done,
                Command::Abort(String::from_str("Signal does not answer the command")),
            ),
        }
    }
}

/// A task whose first candidate succeeds is executed exactly once: the
/// candidate that was found or generated is run as attempt one, its
/// success asks for the cleaning and for nothing else, and the task
/// returns the success message with the program's output.
pub proof fn lemma_first_success_closes_task(
    agent: AipaView,
    task: TaskView,
    found: bool,
    stored: Seq<char>,
    outcome: OutcomeView,
)
    requires
        outcome.success,
    ensures
        ({
            let located = control_step(agent, task, PhaseView::Start, SignalView::Begin);
            let at_hand = control_step(agent, task, located.0, SignalView::Found(found));
            let ready = control_step(
                agent,
                task,
                at_hand.0,
                if found {
                    SignalView::Loaded(stored)
                } else {
                    SignalView::Stored
                },
            );
            let closed = control_step(agent, task, ready.0, SignalView::Ran(outcome));
            let over = control_step(agent, task, closed.0, SignalView::Cleaned);
            &&& !(located.1 is Execute) && !(at_hand.1 is Execute)
            &&& ready == (
                PhaseView::Executing {
                    attempt: 1,
                    code: if found {
                        stored
                    } else {
                        generated_source(task)
                    },
                },
                CommandView::Execute,
            )
            &&& closed.1 == (CommandView::Cleanup { last_notice: None })
            &&& over == (PhaseView::Done, CommandView::Return(success_message(outcome.output)))
        }),
{
}

/// A success closes the task at whatever attempt it comes.
pub proof fn lemma_success_closes_task(
    agent: AipaView,
    task: TaskView,
    attempt: nat,
    code: Seq<char>,
    outcome: OutcomeView,
)
    requires
        outcome.success,
    ensures
        control_step(
            agent,
            task,
            PhaseView::Executing { attempt, code },
            SignalView::Ran(outcome),
        ) == (
            PhaseView::Cleaning { message: success_message(outcome.output) },
            CommandView::Cleanup { last_notice: None },
        ),
{
}

/// A failure with an attempt left asks for a fix of the source that
/// failed, and the fix is stored and executed as the next attempt.
pub proof fn lemma_failure_asks_for_fix(
    agent: AipaView,
    task: TaskView,
    attempt: nat,
    code: Seq<char>,
    outcome: OutcomeView,
    fix: Seq<char>,
)
    requires
        !outcome.success,
        1 <= attempt < MAX_ATTEMPTS,
    ensures
        ({
            let asked = control_step(
                agent,
                task,
                PhaseView::Executing { attempt, code },
                SignalView::Ran(outcome),
            );
            let kept = control_step(agent, task, asked.0, SignalView::Fixed(fix));
            let again = control_step(agent, task, kept.0, SignalView::Stored);
            &&& asked.1 == (CommandView::AskFix {
                notice: failure_notice(attempt, detail_of(outcome)),
                source: code,
                error: detail_of(outcome),
            })
            &&& kept.1 == (CommandView::Store { path: source_path(agent, task), text: fix })
            &&& again == (
                PhaseView::Executing { attempt: attempt + 1, code: fix },
                CommandView::Execute,
            )
        }),
{
}

/// A failure on the last attempt closes the task: no fix is asked for, the
/// workspace is cleaned, and the message names the budget and the last
/// failure.
pub proof fn lemma_last_failure_exhausts(
    agent: AipaView,
    task: TaskView,
    code: Seq<char>,
    outcome: OutcomeView,
)
    requires
        !outcome.success,
    ensures
        ({
            let closed = control_step(
                agent,
                task,
                PhaseView::Executing { attempt: MAX_ATTEMPTS as nat, code },
                SignalView::Ran(outcome),
            );
            let over = control_step(agent, task, closed.0, SignalView::Cleaned);
            &&& closed.1 == (CommandView::Cleanup {
                last_notice: Some(failure_notice(MAX_ATTEMPTS as nat, detail_of(outcome))),
            })
            &&& over == (
                PhaseView::Done,
                CommandView::Return(exhausted_message(detail_of(outcome))),
            )
        }),
{
}

/// A task whose candidates all fail is executed exactly as often as the
/// budget allows: the first two failures each ask for a fix, which is run
/// as the next attempt, and the third closes the task with the message of
/// exhaustion.
pub proof fn lemma_three_failures_exhaust(
    agent: AipaView,
    task: TaskView,
    code: Seq<char>,
    first: OutcomeView,
    second: OutcomeView,
    third: OutcomeView,
    fix_one: Seq<char>,
    fix_two: Seq<char>,
)
    requires
        !first.success,
        !second.success,
        !third.success,
    ensures
        ({
            let start = PhaseView::Executing { attempt: 1, code };
            let asked_one = control_step(agent, task, start, SignalView::Ran(first));
            let kept_one = control_step(agent, task, asked_one.0, SignalView::Fixed(fix_one));
            let run_two = control_step(agent, task, kept_one.0, SignalView::Stored);
            let asked_two = control_step(agent, task, run_two.0, SignalView::Ran(second));
            let kept_two = control_step(agent, task, asked_two.0, SignalView::Fixed(fix_two));
            let run_three = control_step(agent, task, kept_two.0, SignalView::Stored);
            let closed = control_step(agent, task, run_three.0, SignalView::Ran(third));
            let over = control_step(agent, task, closed.0, SignalView::Cleaned);
            &&& asked_one.1 is AskFix && asked_two.1 is AskFix
            &&& kept_one.1 is Store && kept_two.1 is Store
            &&& run_two == (PhaseView::Executing { attempt: 2, code: fix_one }, CommandView::Execute)
            &&& run_three == (
                PhaseView::Executing { attempt: 3, code: fix_two },
                CommandView::Execute,
            )
            &&& closed.1 is Cleanup
            &&& over == (PhaseView::Done, CommandView::Return(exhausted_message(detail_of(third))))
        }),
{
    lemma_failure_asks_for_fix(agent, task, 1, code, first, fix_one);
    lemma_failure_asks_for_fix(agent, task, 2, fix_one, second, fix_two);
    lemma_last_failure_exhausts(agent, task, fix_two, third);
}

/// Every step from a phase within the budget leads to a phase within the
/// budget, never lowers the attempt count, and leaves fewer commands to
/// come; so a task is over after a bounded number of steps, and is never
/// executed more often than the budget allows.
pub proof fn lemma_control_progress(
    agent: AipaView,
    task: TaskView,
    phase: PhaseView,
    signal: SignalView,
)
    requires
        phase.wf(),
    ensures
        ({
            let next = control_step(agent, task, phase, signal);
            &&& next.0.wf()
            &&& phase.attempt() <= next.0.attempt() <= MAX_ATTEMPTS
            &&& !(phase is Done) ==> 0 <= next.0.rank() < phase.rank()
            &&& is_last(next.1) <==> next.0 is Done
            &&& next.1 is Execute ==> next.0 is Executing
        }),
{
}

/// The message of exhaustion reads the budget as the number three.
pub proof fn lemma_exhausted_message_reads(detail: Seq<char>)
    ensures
        exhausted_message(detail) == "Error after 3 attempts: "@ + detail,
{
    reveal_strlit("Error after ");
    reveal_strlit(" attempts: ");
    reveal_strlit("Error after 3 attempts: ");
    assert(decimal(3) == seq!['3']);
    assert("Error after "@ + decimal(3) + " attempts: "@ == "Error after 3 attempts: "@);
}

/// The outcome of an attempt, good or bad, never aborts a task: a failed
/// build or run is answered by a request for a fix or by the closing of
/// the task, not by an error.
pub proof fn lemma_outcome_never_aborts(
    agent: AipaView,
    task: TaskView,
    attempt: nat,
    code: Seq<char>,
    outcome: OutcomeView,
)
    ensures
        ({
            let next = control_step(
                agent,
                task,
                PhaseView::Executing { attempt, code },
                SignalView::Ran(outcome),
            );
            &&& !(next.1 is Abort)
            &&& next.1 is Cleanup || next.1 is AskFix
            &&& next.1 is AskFix <==> !outcome.success && attempt < MAX_ATTEMPTS
        }),
{
}

/// A candidate is written to the path from which an artifact is loaded:
/// the source path of the task.
pub proof fn lemma_store_and_load_share_path(
    agent: AipaView,
    task: TaskView,
    phase: PhaseView,
    signal: SignalView,
)
    ensures
        ({
            let next = control_step(agent, task, phase, signal);
            &&& next.1 is Store ==> next.1->Store_path == source_path(agent, task)
            &&& next.1 is Load ==> next.1->Load_path == source_path(agent, task)
            &&& next.1 is Locate ==> next.1->Locate_path == source_path(agent, task)
            &&& next.1 is Store ==> next.0 is Storing && next.0->Storing_code
                == next.1->Store_text
        }),
{
}

/// How often the candidate is executed when the controller stands at
/// `phase` and is told `signals[i..]`, one signal for each command it
/// gives.
pub open spec fn executions(
    agent: AipaView,
    task: TaskView,
    phase: PhaseView,
    signals: Seq<SignalView>,
    i: int,
) -> nat
    decreases signals.len() - i,
{
    if i < 0 || i >= signals.len() {
        0
    } else {
        let next = control_step(agent, task, phase, signals[i]);
        let now: nat = if next.1 is Execute {
            1
        } else {
            0
        };
        now + executions(agent, task, next.0, signals, i + 1)
    }
}

impl PhaseView {
    /// How many executions a phase still allows.
    pub open spec fn attempts_left(self) -> int {
        match self {
            PhaseView::Start | PhaseView::Locating | PhaseView::Loading => MAX_ATTEMPTS as int,
            PhaseView::Storing { attempt, .. } => MAX_ATTEMPTS - attempt + 1,
            PhaseView::Executing { attempt, .. } => MAX_ATTEMPTS - attempt,
            PhaseView::Repairing { attempt } => MAX_ATTEMPTS - attempt,
            PhaseView::Cleaning { .. } | PhaseView::Done => 0,
        }
    }
}

/// Whatever the controller is told, it never has the candidate executed
/// more often than the phase it stands at allows.
pub proof fn lemma_executions_within_budget(
    agent: AipaView,
    task: TaskView,
    phase: PhaseView,
    signals: Seq<SignalView>,
    i: int,
)
    requires
        phase.wf(),
    ensures
        executions(agent, task, phase, signals, i) <= phase.attempts_left(),
    decreases signals.len() - i,
{
    if 0 <= i < signals.len() {
        let next = control_step(agent, task, phase, signals[i]);
        lemma_control_progress(agent, task, phase, signals[i]);
        lemma_executions_within_budget(agent, task, next.0, signals, i + 1);
    }
}

/// A task is executed at most as often as the budget says, whatever
/// happens on the way.
pub proof fn lemma_task_is_executed_at_most_thrice(
    agent: AipaView,
    task: TaskView,
    signals: Seq<SignalView>,
)
    ensures
        executions(agent, task, PhaseView::Start, signals, 0) <= MAX_ATTEMPTS,
{
    lemma_executions_within_budget(agent, task, PhaseView::Start, signals, 0);
}

} // verus!
