//! The startup sequence as a state machine.
//!
//! Startup is linear: resolve the backend binary, spawn it, then run until
//! the application exits. Either step may fail, and the first failure is
//! fatal: it is reported once and the process exits with status 1. Nothing
//! is retried and no phase is ever entered twice.
//!
//! The launcher performs no effect itself. It names the next [`Action`]; the
//! host carries it out and answers with the [`Event`] that tells how it went.

use crate::backend::{backend_args, backend_name, launch_args, sidecar_name};
use crate::failure::{failure_message, failure_text, Failure};
use vstd::prelude::*;

verus! {

/// Exit status of the process after a fatal startup failure.
pub const FATAL_EXIT_CODE: i32 = 1;

/// Where the startup sequence stands.
#[derive(Clone, Copy, Debug, PartialEq, Eq, Structural)]
pub enum Phase {
    /// Nothing has happened yet; the backend binary is being looked up.
    Init,
    /// The backend binary was found; the process is being created.
    Resolved,
    /// The backend process is running. This is the steady state.
    Running,
    /// A step failed; the failure is being reported.
    FatalError,
    /// The application is over.
    Terminal,
}

/// What the host tells the launcher.
#[derive(Clone, Debug, PartialEq, Eq)]
pub enum Event {
    /// The backend binary was found.
    BinaryResolved,
    /// The backend binary was not found; `diagnostic` describes the lookup
    /// error.
    BinaryNotFound { diagnostic: String },
    /// The backend process was created.
    Spawned,
    /// The backend process could not be created; `diagnostic` describes the
    /// operating system's error.
    SpawnFailed { diagnostic: String },
    /// The fatal error has been shown to the user.
    ErrorReported,
    /// The application is shutting down in the ordinary way.
    AppExited,
}

/// The mathematical content of an [`Event`].
pub enum EventView {
    BinaryResolved,
    BinaryNotFound { diagnostic: Seq<char> },
    Spawned,
    SpawnFailed { diagnostic: Seq<char> },
    ErrorReported,
    AppExited,
}

impl View for Event {
    type V = EventView;

    open spec fn view(&self) -> EventView {
        match self {
            Event::BinaryResolved => EventView::BinaryResolved,
            Event::BinaryNotFound { diagnostic } => EventView::BinaryNotFound {
                diagnostic: diagnostic@,
            },
            Event::Spawned => EventView::Spawned,
            Event::SpawnFailed { diagnostic } => EventView::SpawnFailed { diagnostic: diagnostic@ },
            Event::ErrorReported => EventView::ErrorReported,
            Event::AppExited => EventView::AppExited,
        }
    }
}

/// What the launcher asks of the host.
#[derive(Clone, Debug, PartialEq, Eq)]
pub enum Action {
    /// Look up the executable called `name` beside the running application,
    /// allowing for a platform suffix. Answer with [`Event::BinaryResolved`]
    /// or [`Event::BinaryNotFound`].
    ResolveBinary { name: String },
    /// Start the resolved binary as a child process with exactly `args`.
    /// Answer with [`Event::Spawned`] or [`Event::SpawnFailed`].
    Spawn { args: Vec<String> },
    /// Show `message` to the user. Answer with [`Event::ErrorReported`].
    ReportFatal { failure: Failure, message: String },
    /// End the process with status `code`.
    Exit { code: i32 },
    /// Keep the child's handle and its output stream alive for as long as
    /// the application runs. The stream is not read, but closing it early
    /// could end the child's output.
    Retain,
    /// Let go of the child's handle and output stream. The launcher sends
    /// the child no signal: whether it outlives the shell is left to the
    /// platform.
    Release,
    /// The event was not one this phase waits for; there is nothing to do.
    Nothing,
}

/// The mathematical content of an [`Action`].
pub enum ActionView {
    ResolveBinary { name: Seq<char> },
    Spawn { args: Seq<Seq<char>> },
    ReportFatal { failure: Failure, message: Seq<char> },
    Exit { code: i32 },
    Retain,
    Release,
    Nothing,
}

impl View for Action {
    type V = ActionView;

    open spec fn view(&self) -> ActionView {
        match self {
            Action::ResolveBinary { name } => ActionView::ResolveBinary { name: name@ },
            Action::Spawn { args } => ActionView::Spawn { args: args.deep_view() },
            Action::ReportFatal { failure, message } => ActionView::ReportFatal {
                failure: *failure,
                message: message@,
            },
            Action::Exit { code } => ActionView::Exit { code: *code },
            Action::Retain => ActionView::Retain,
            Action::Release => ActionView::Release,
            Action::Nothing => ActionView::Nothing,
        }
    }
}

/// The report of `failure`, with the message built from `diagnostic`.
pub open spec fn report_of(failure: Failure, diagnostic: Seq<char>) -> ActionView {
    ActionView::ReportFatal { failure, message: failure_text(failure, diagnostic) }
}

/// The action that opens every run: look up the backend binary.
pub open spec fn first_action() -> ActionView {
    ActionView::ResolveBinary { name: sidecar_name() }
}

/// The transition table: the phase that follows `phase` on `event`, and the
/// action the host is to take. An event that `phase` does not wait for
/// changes nothing.
pub open spec fn next(phase: Phase, event: EventView) -> (Phase, ActionView) {
    match (phase, event) {
        (Phase::Init, EventView::BinaryResolved) => (
            Phase::Resolved,
            ActionView::Spawn { args: launch_args() },
        ),
        (Phase::Init, EventView::BinaryNotFound { diagnostic }) => (
            Phase::FatalError,
            report_of(Failure::BinaryNotFound, diagnostic),
        ),
        (Phase::Resolved, EventView::Spawned) => (Phase::Running, ActionView::Retain),
        (Phase::Resolved, EventView::SpawnFailed { diagnostic }) => (
            Phase::FatalError,
            report_of(Failure::SpawnFailed, diagnostic),
        ),
        (Phase::Running, EventView::AppExited) => (Phase::Terminal, ActionView::Release),
        (Phase::FatalError, EventView::ErrorReported) => (
            Phase::Terminal,
            ActionView::Exit { code: FATAL_EXIT_CODE },
        ),
        _ => (phase, ActionView::Nothing),
    }
}

/// Begins a run: the initial phase and the first action.
pub fn start() -> (first: (Phase, Action))
    ensures
        first.0 == Phase::Init,
        first.1@ == first_action(),
{
    (Phase::Init, Action::ResolveBinary { name: backend_name() })
}

/// Builds the report of `failure`.
fn report(failure: Failure, diagnostic: &str) -> (action: Action)
    ensures
        action@ == report_of(failure, diagnostic@),
{
    Action::ReportFatal { failure, message: failure_message(failure, diagnostic) }
}

/// Takes one step: given the current phase and what the host reports,
/// returns the next phase and the next action.
pub fn step(phase: Phase, event: &Event) -> (out: (Phase, Action))
    ensures
        (out.0, out.1@) == next(phase, event@),
{
    match phase {
        Phase::Init => match event {
            Event::BinaryResolved => (Phase::Resolved, Action::Spawn { args: backend_args() }),
            Event::BinaryNotFound { diagnostic } => (
                Phase::FatalError,
                report(Failure::BinaryNotFound, diagnostic.as_str()),
            ),
            _ => (phase, Action::Nothing),
        },
        Phase::Resolved => match event {
            Event::Spawned => (Phase::Running, Action::Retain),
            Event::SpawnFailed { diagnostic } => (
                Phase::FatalError,
                report(Failure::SpawnFailed, diagnostic.as_str()),
            ),
            _ => (phase, Action::Nothing),
        },
        Phase::Running => match event {
            Event::AppExited => (Phase::Terminal, Action::Release),
            _ => (phase, Action::Nothing),
        },
        Phase::FatalError => match event {
            Event::ErrorReported => (Phase::Terminal, Action::Exit { code: FATAL_EXIT_CODE }),
            _ => (phase, Action::Nothing),
        },
        Phase::Terminal => (phase, Action::Nothing),
    }
}

} // verus!
