//! The update pipeline of one project: fetch, look at the status, pull,
//! and, for a project that asks for it, build, take the installation lock,
//! move the binary into place and let the lock go.
//!
//! A `PipelineRun` makes the decisions and nothing else. `pending` names
//! the one thing it waits for; the caller does it and hands the result to
//! `observe`, which moves the run on. A failure ends the run of its project
//! and of no other.

use crate::config::{ProjectConfig, ProjectConfigView};
use crate::executor::{
    describe_failure, failure_text, judgement_view, zero_only, CommandOutcome, CommandOutcomeView,
    ExecError, ExecErrorView,
};
use crate::git::{commit_hash, get_current_commit_hash, is_up_to_date, up_to_date_marker};
use crate::lock::{
    acquire_step, acquisition, lock_error_text, release, release_step, AcquireStep,
    AcquireStepView, LockHandle, ReleaseStep, ReleaseStepView,
};
use crate::poller::{elapsed_since, origin_after, poll_decision, Poll, PollPolicy};
use crate::report::{LogLevel, Report, ReportView};
use crate::text::contains_text;
use vstd::prelude::*;
use vstd::string::*;

verus! {

/// Why a run failed.
#[derive(Clone, Copy, Debug, PartialEq, Eq, Structural)]
pub enum FailureKind {
    /// A command ended with an exit code that is not accepted, or could
    /// not be run or read.
    CommandFailure,
    /// The installation lock was not free before the deadline.
    LockAcquisitionTimeout,
    /// The installation lock could not be let go before the deadline.
    LockReleaseTimeout,
    /// The project asks for an installation and its source path names no
    /// binary.
    StructuralConfigError,
}

/// The states of a project's run.
#[derive(Clone, Copy, Debug, PartialEq, Eq, Structural)]
pub enum Stage {
    /// Nothing has been done.
    Idle,
    /// The fetch succeeded.
    Fetched,
    /// The status was read.
    StatusChecked,
    /// The status says that nothing is to be pulled.
    UpToDate,
    /// The status does not say so: there may be something to pull.
    PullPending,
    /// The pull succeeded.
    Pulled,
    /// No install path is configured: there is nothing to build.
    NoBuildRequested,
    /// An install path is configured: the binary is to be built.
    BuildPending,
    /// The build succeeded.
    Built,
    /// The run has the installation lock.
    LockHeld,
    /// The binary is in place.
    Installed,
    /// The installation lock is free again.
    LockReleased,
    /// The run ended well.
    Done,
    /// The run ended badly.
    Failed(FailureKind),
}

/// The run can go from `from` to `to` in one transition.
pub open spec fn legal(from: Stage, to: Stage) -> bool {
    match (from, to) {
        (Stage::Done, _) => false,
        (Stage::Failed(_), _) => false,
        (_, Stage::Failed(_)) => true,
        (Stage::Idle, Stage::Fetched) => true,
        (Stage::Fetched, Stage::StatusChecked) => true,
        (Stage::StatusChecked, Stage::UpToDate) => true,
        (Stage::StatusChecked, Stage::PullPending) => true,
        (Stage::UpToDate, Stage::Done) => true,
        (Stage::PullPending, Stage::Pulled) => true,
        (Stage::Pulled, Stage::NoBuildRequested) => true,
        (Stage::Pulled, Stage::BuildPending) => true,
        (Stage::NoBuildRequested, Stage::Done) => true,
        (Stage::BuildPending, Stage::Built) => true,
        (Stage::Built, Stage::LockHeld) => true,
        (Stage::LockHeld, Stage::Installed) => true,
        (Stage::Installed, Stage::LockReleased) => true,
        (Stage::LockReleased, Stage::Done) => true,
        _ => false,
    }
}

/// From `from`, the run can pass through the states of `path` in order.
pub open spec fn legal_path(from: Stage, path: Seq<Stage>) -> bool {
    forall|i: int|
        0 <= i < path.len() ==> legal(
            if i == 0 {
                from
            } else {
                path[i - 1]
            },
            #[trigger] path[i],
        )
}

/// The state a run is in after passing from `from` through `path`.
pub open spec fn end_of(from: Stage, path: Seq<Stage>) -> Stage {
    if path.len() == 0 {
        from
    } else {
        path.last()
    }
}

/// The commands of a run.
#[derive(Clone, Copy, Debug, PartialEq, Eq, Structural)]
pub enum CommandStep {
    Fetch,
    Status,
    /// Finds the commit to go back to should the build fail.
    RecordCommit,
    Pull,
    Build,
    /// Moves the built binary into the install directory.
    Move,
    /// Goes back to the commit recorded before the pull.
    Rollback,
}

/// What can be set for all runs.
#[derive(Clone, Copy, Debug, PartialEq, Eq, Structural)]
pub struct PipelineSettings {
    /// How to wait for the installation lock, and for its release.
    pub lock_poll: PollPolicy,
    /// Whether a failed build resets the working tree to the commit it was
    /// at before the pull. This throws away what the failed build left in
    /// the tree, so it is done only where asked for.
    pub rollback_on_build_failure: bool,
}

/// One command to run: a command line, the directory to run it in, and the
/// exit codes that count as success.
#[derive(Debug, PartialEq, Eq)]
pub struct CommandRequest {
    pub step: CommandStep,
    pub command_line: String,
    pub working_directory: String,
    pub accepted_exit_codes: Vec<i32>,
}

/// The model of a `CommandRequest`.
pub struct CommandRequestView {
    pub step: CommandStep,
    pub command_line: Seq<char>,
    pub working_directory: Seq<char>,
    pub accepted_exit_codes: Seq<i32>,
}

impl View for CommandRequest {
    type V = CommandRequestView;

    open spec fn view(&self) -> CommandRequestView {
        CommandRequestView {
            step: self.step,
            command_line: self.command_line@,
            working_directory: self.working_directory@,
            accepted_exit_codes: self.accepted_exit_codes@,
        }
    }
}

/// What a run waits for.
#[derive(Debug, PartialEq, Eq)]
pub enum Action {
    /// Run this command and report how it ended.
    Run(CommandRequest),
    /// Pause for `delay_ms`, then create the sentinel file at `path` if it
    /// is not there, in one step, and report whether that made the file.
    CreateSentinel { path: String, delay_ms: u64 },
    /// Pause for `delay_ms`, then remove the sentinel file at `path` and
    /// report whether it is gone.
    RemoveSentinel { path: String, delay_ms: u64 },
    /// Nothing: the run is over.
    Finish,
}

/// The model of an `Action`.
pub enum ActionView {
    Run(CommandRequestView),
    CreateSentinel { path: Seq<char>, delay_ms: u64 },
    RemoveSentinel { path: Seq<char>, delay_ms: u64 },
    Finish,
}

impl View for Action {
    type V = ActionView;

    open spec fn view(&self) -> ActionView {
        match self {
            Action::Run(request) => ActionView::Run(request@),
            Action::CreateSentinel { path, delay_ms } => ActionView::CreateSentinel {
                path: path@,
                delay_ms: *delay_ms,
            },
            Action::RemoveSentinel { path, delay_ms } => ActionView::RemoveSentinel {
                path: path@,
                delay_ms: *delay_ms,
            },
            Action::Finish => ActionView::Finish,
        }
    }
}

/// What the caller reports back.
#[derive(Debug, PartialEq, Eq)]
pub enum Event {
    /// The command asked for was run, or could not be.
    Command(Result<CommandOutcome, ExecError>),
    /// The sentinel file was tried for when the clock read `now_ms`, in
    /// milliseconds; `done` says whether the file was created, or removed.
    Sentinel { done: bool, now_ms: u64 },
}

/// The model of an `Event`.
pub enum EventView {
    Command(Result<CommandOutcomeView, ExecErrorView>),
    Sentinel { done: bool, now_ms: u64 },
}

impl View for Event {
    type V = EventView;

    open spec fn view(&self) -> EventView {
        match self {
            Event::Command(judgement) => EventView::Command(judgement_view(*judgement)),
            Event::Sentinel { done, now_ms } => EventView::Sentinel {
                done: *done,
                now_ms: *now_ms,
            },
        }
    }
}

/// How far a run has come, with what it has to remember there.
pub enum ProgressView {
    /// Nothing is done: the fetch is due.
    Idle,
    /// The status is due.
    Fetched,
    /// The pull is due, and before it, where a failed build is to be
    /// rolled back, the record of the commit to go back to.
    PullPending { prior_commit: Option<Seq<char>> },
    /// The build is due.
    BuildPending { prior_commit: Option<Seq<char>> },
    /// The lock is due; `origin` is the time of the first attempt at it.
    Built { origin: Option<u64> },
    /// The move is due.
    LockHeld { handle: Seq<char> },
    /// The release of the lock is due.
    Installed { handle: Seq<char>, origin: Option<u64> },
    /// The build failed; the reset to `commit` is due.
    Undoing { commit: Seq<char> },
    /// The move failed; the release of the lock is due.
    Abandoning { handle: Seq<char>, origin: Option<u64> },
    /// The run is over and the project is level with its upstream.
    Done,
    /// The run is over and has failed.
    Failed(FailureKind),
}

impl ProgressView {
    /// The state of the run. A run that failed and still has to tidy up is
    /// in the state `Failed` already.
    pub open spec fn stage(self) -> Stage {
        match self {
            ProgressView::Idle => Stage::Idle,
            ProgressView::Fetched => Stage::Fetched,
            ProgressView::PullPending { .. } => Stage::PullPending,
            ProgressView::BuildPending { .. } => Stage::BuildPending,
            ProgressView::Built { .. } => Stage::Built,
            ProgressView::LockHeld { .. } => Stage::LockHeld,
            ProgressView::Installed { .. } => Stage::Installed,
            ProgressView::Undoing { .. } => Stage::Failed(FailureKind::CommandFailure),
            ProgressView::Abandoning { .. } => Stage::Failed(FailureKind::CommandFailure),
            ProgressView::Done => Stage::Done,
            ProgressView::Failed(kind) => Stage::Failed(kind),
        }
    }

    /// The run is over: it waits for nothing more.
    pub open spec fn finished(self) -> bool {
        self is Done || self is Failed
    }

    /// The run has the lock: it created the sentinel file and has not yet
    /// let it go or given it up.
    pub open spec fn holds_lock(self) -> bool {
        self is LockHeld || self is Installed || self is Abandoning
    }
}

/// What one observation does to a run: where it is afterwards, the states
/// it entered on the way, and what there is to report.
pub struct StepView {
    pub next: ProgressView,
    pub entered: Seq<Stage>,
    pub report: ReportView,
}

/// What is reported when the run of a project begins.
pub open spec fn opening_report() -> ReportView {
    ReportView { level: LogLevel::Debug, message: "Beginning update for project."@ }
}

/// What is said of a project whose source path names no binary.
pub open spec fn structural_text(project: Seq<char>) -> Seq<char> {
    "Source path of project "@ + project + " is not an absolute path below the root"@
}

/// The run ends as failed by a command, with the command's own words.
pub open spec fn command_failed(judgement: Result<CommandOutcomeView, ExecErrorView>) -> StepView {
    StepView {
        next: ProgressView::Failed(FailureKind::CommandFailure),
        entered: seq![Stage::Failed(FailureKind::CommandFailure)],
        report: ReportView { level: LogLevel::Error, message: failure_text(judgement) },
    }
}

/// After the fetch.
pub open spec fn after_fetch(judgement: Result<CommandOutcomeView, ExecErrorView>) -> StepView {
    match judgement {
        Ok(CommandOutcomeView::Success(stdout)) => StepView {
            next: ProgressView::Fetched,
            entered: seq![Stage::Fetched],
            report: ReportView { level: LogLevel::Debug, message: "git fetch output:\n"@ + stdout },
        },
        _ => command_failed(judgement),
    }
}

/// After the status: a tree that is up to date ends the run, with nothing
/// pulled, built or installed.
pub open spec fn after_status(judgement: Result<CommandOutcomeView, ExecErrorView>) -> StepView {
    match judgement {
        Ok(CommandOutcomeView::Success(stdout)) => if contains_text(stdout, up_to_date_marker()) {
            StepView {
                next: ProgressView::Done,
                entered: seq![Stage::StatusChecked, Stage::UpToDate, Stage::Done],
                report: ReportView {
                    level: LogLevel::Info,
                    message: "Nothing to pull for project."@,
                },
            }
        } else {
            StepView {
                next: ProgressView::PullPending { prior_commit: None },
                entered: seq![Stage::StatusChecked, Stage::PullPending],
                report: ReportView {
                    level: LogLevel::Debug,
                    message: "git status output:\n"@ + stdout,
                },
            }
        },
        _ => command_failed(judgement),
    }
}

/// Before the pull, the commit to go back to is still to be recorded.
pub open spec fn records_commit(settings: PipelineSettings, prior_commit: Option<Seq<char>>)
    -> bool {
    settings.rollback_on_build_failure && prior_commit is None
}

/// After the record of the current commit.
pub open spec fn after_record(judgement: Result<CommandOutcomeView, ExecErrorView>) -> StepView {
    match judgement {
        Ok(CommandOutcomeView::Success(stdout)) => StepView {
            next: ProgressView::PullPending { prior_commit: Some(commit_hash(stdout)) },
            entered: Seq::empty(),
            report: ReportView {
                level: LogLevel::Debug,
                message: "Current commit is "@ + commit_hash(stdout),
            },
        },
        _ => command_failed(judgement),
    }
}

/// After the pull: a project that asks for no installation is done; one
/// that does goes on to the build, if its source path names a binary.
pub open spec fn after_pull(
    config: ProjectConfigView,
    prior_commit: Option<Seq<char>>,
    judgement: Result<CommandOutcomeView, ExecErrorView>,
) -> StepView {
    match judgement {
        Ok(CommandOutcomeView::Success(stdout)) => if !config.requests_install() {
            StepView {
                next: ProgressView::Done,
                entered: seq![Stage::Pulled, Stage::NoBuildRequested, Stage::Done],
                report: ReportView { level: LogLevel::Info, message: "Project was updated."@ },
            }
        } else if !config.buildable() {
            StepView {
                next: ProgressView::Failed(FailureKind::StructuralConfigError),
                entered: seq![Stage::Pulled, Stage::Failed(FailureKind::StructuralConfigError)],
                report: ReportView {
                    level: LogLevel::Error,
                    message: structural_text(config.name),
                },
            }
        } else {
            StepView {
                next: ProgressView::BuildPending { prior_commit },
                entered: seq![Stage::Pulled, Stage::BuildPending],
                report: ReportView {
                    level: LogLevel::Debug,
                    message: "git pull output:\n"@ + stdout,
                },
            }
        },
        _ => command_failed(judgement),
    }
}

/// After the build. A failed build fails the run; where that is asked for
/// and the commit before the pull is on record, the tree is first reset.
pub open spec fn after_build(
    settings: PipelineSettings,
    prior_commit: Option<Seq<char>>,
    judgement: Result<CommandOutcomeView, ExecErrorView>,
) -> StepView {
    match judgement {
        Ok(CommandOutcomeView::Success(stdout)) => StepView {
            next: ProgressView::Built { origin: None },
            entered: seq![Stage::Built],
            report: ReportView {
                level: LogLevel::Debug,
                message: "cargo build output:\n"@ + stdout,
            },
        },
        _ => StepView {
            next: match prior_commit {
                Some(hash) if settings.rollback_on_build_failure => ProgressView::Undoing {
                    commit: hash,
                },
                _ => ProgressView::Failed(FailureKind::CommandFailure),
            },
            entered: seq![Stage::Failed(FailureKind::CommandFailure)],
            report: ReportView { level: LogLevel::Error, message: failure_text(judgement) },
        },
    }
}

/// After the reset that follows a failed build: the run is over, whatever
/// came of the reset.
pub open spec fn after_rollback(judgement: Result<CommandOutcomeView, ExecErrorView>) -> StepView {
    StepView {
        next: ProgressView::Failed(FailureKind::CommandFailure),
        entered: Seq::empty(),
        report: match judgement {
            Ok(CommandOutcomeView::Success(stdout)) => ReportView {
                level: LogLevel::Debug,
                message: "git reset output:\n"@ + stdout,
            },
            _ => ReportView { level: LogLevel::Error, message: failure_text(judgement) },
        },
    }
}

/// After an attempt to create the sentinel file.
pub open spec fn after_create(
    config: ProjectConfigView,
    settings: PipelineSettings,
    origin: Option<u64>,
    done: bool,
    now_ms: u64,
) -> StepView {
    match acquisition(
        config.name,
        config.lock_path(),
        poll_decision(settings.lock_poll, elapsed_since(origin, now_ms), done),
    ) {
        AcquireStepView::Acquired(handle) => StepView {
            next: ProgressView::LockHeld { handle },
            entered: seq![Stage::LockHeld],
            report: ReportView { level: LogLevel::Debug, message: "Lock acquired: "@ + handle },
        },
        AcquireStepView::Retry { .. } => StepView {
            next: ProgressView::Built { origin: origin_after(origin, now_ms) },
            entered: Seq::empty(),
            report: ReportView {
                level: LogLevel::Debug,
                message: "Lock file is present, trying again"@,
            },
        },
        AcquireStepView::Failed(error) => StepView {
            next: ProgressView::Failed(FailureKind::LockAcquisitionTimeout),
            entered: seq![Stage::Failed(FailureKind::LockAcquisitionTimeout)],
            report: ReportView { level: LogLevel::Error, message: lock_error_text(error) },
        },
    }
}

/// After the move. Whether it succeeded or failed, the release of the lock
/// is due next.
pub open spec fn after_move(
    handle: Seq<char>,
    judgement: Result<CommandOutcomeView, ExecErrorView>,
) -> StepView {
    match judgement {
        Ok(CommandOutcomeView::Success(stdout)) => StepView {
            next: ProgressView::Installed { handle, origin: None },
            entered: seq![Stage::Installed],
            report: ReportView {
                level: LogLevel::Debug,
                message: "move operation output:\n"@ + stdout,
            },
        },
        _ => StepView {
            next: ProgressView::Abandoning { handle, origin: None },
            entered: seq![Stage::Failed(FailureKind::CommandFailure)],
            report: ReportView { level: LogLevel::Error, message: failure_text(judgement) },
        },
    }
}

/// After an attempt to remove the sentinel file of an installed binary. A
/// lock that cannot be let go fails the run although the binary is in
/// place.
pub open spec fn after_release(
    config: ProjectConfigView,
    settings: PipelineSettings,
    handle: Seq<char>,
    origin: Option<u64>,
    done: bool,
    now_ms: u64,
) -> StepView {
    match release(
        config.name,
        handle,
        poll_decision(settings.lock_poll, elapsed_since(origin, now_ms), done),
    ) {
        ReleaseStepView::Released => StepView {
            next: ProgressView::Done,
            entered: seq![Stage::LockReleased, Stage::Done],
            report: ReportView { level: LogLevel::Info, message: "Project was updated."@ },
        },
        ReleaseStepView::Retry { handle, .. } => StepView {
            next: ProgressView::Installed { handle, origin: origin_after(origin, now_ms) },
            entered: Seq::empty(),
            report: ReportView {
                level: LogLevel::Debug,
                message: "Lock file could not be removed, trying again"@,
            },
        },
        ReleaseStepView::Failed(error) => StepView {
            next: ProgressView::Failed(FailureKind::LockReleaseTimeout),
            entered: seq![Stage::Failed(FailureKind::LockReleaseTimeout)],
            report: ReportView { level: LogLevel::Error, message: lock_error_text(error) },
        },
    }
}

/// After an attempt to remove the sentinel file where the move had failed.
/// The run has failed already; a lock that cannot be let go is reported as
/// loudly as after an installation.
pub open spec fn after_abandon(
    config: ProjectConfigView,
    settings: PipelineSettings,
    handle: Seq<char>,
    origin: Option<u64>,
    done: bool,
    now_ms: u64,
) -> StepView {
    match release(
        config.name,
        handle,
        poll_decision(settings.lock_poll, elapsed_since(origin, now_ms), done),
    ) {
        ReleaseStepView::Released => StepView {
            next: ProgressView::Failed(FailureKind::CommandFailure),
            entered: Seq::empty(),
            report: ReportView {
                level: LogLevel::Debug,
                message: "Lock released after the failed move"@,
            },
        },
        ReleaseStepView::Retry { handle, .. } => StepView {
            next: ProgressView::Abandoning { handle, origin: origin_after(origin, now_ms) },
            entered: Seq::empty(),
            report: ReportView {
                level: LogLevel::Debug,
                message: "Lock file could not be removed, trying again"@,
            },
        },
        ReleaseStepView::Failed(error) => StepView {
            next: ProgressView::Failed(FailureKind::CommandFailure),
            entered: Seq::empty(),
            report: ReportView { level: LogLevel::Error, message: lock_error_text(error) },
        },
    }
}

/// An event that does not answer what the run waits for changes nothing.
pub open spec fn ignored(progress: ProgressView) -> StepView {
    StepView {
        next: progress,
        entered: Seq::empty(),
        report: ReportView {
            level: LogLevel::Warn,
            message: "Event does not answer what the run waits for"@,
        },
    }
}

/// What observing `event` does to a run of the project `config` that has
/// come as far as `progress`.
pub open spec fn transition(
    config: ProjectConfigView,
    settings: PipelineSettings,
    progress: ProgressView,
    event: EventView,
) -> StepView {
    match (progress, event) {
        (ProgressView::Idle, EventView::Command(judgement)) => after_fetch(judgement),
        (ProgressView::Fetched, EventView::Command(judgement)) => after_status(judgement),
        (ProgressView::PullPending { prior_commit }, EventView::Command(judgement)) => {
            if records_commit(settings, prior_commit) {
                after_record(judgement)
            } else {
                after_pull(config, prior_commit, judgement)
            }
        },
        (ProgressView::BuildPending { prior_commit }, EventView::Command(judgement)) => {
            after_build(settings, prior_commit, judgement)
        },
        (ProgressView::Built { origin }, EventView::Sentinel { done, now_ms }) => after_create(
            config,
            settings,
            origin,
            done,
            now_ms,
        ),
        (ProgressView::LockHeld { handle }, EventView::Command(judgement)) => after_move(
            handle,
            judgement,
        ),
        (ProgressView::Installed { handle, origin }, EventView::Sentinel { done, now_ms }) => {
            after_release(config, settings, handle, origin, done, now_ms)
        },
        (ProgressView::Undoing { .. }, EventView::Command(judgement)) => after_rollback(judgement),
        (ProgressView::Abandoning { handle, origin }, EventView::Sentinel { done, now_ms }) => {
            after_abandon(config, settings, handle, origin, done, now_ms)
        },
        _ => ignored(progress),
    }
}

/// The request for `command_line` as the command `step` of the project.
pub open spec fn request(config: ProjectConfigView, step: CommandStep, command_line: Seq<char>)
    -> ActionView {
    ActionView::Run(
        CommandRequestView {
            step,
            command_line,
            working_directory: config.source_path,
            accepted_exit_codes: seq![0i32],
        },
    )
}

/// The command that moves the built binary into place.
pub open spec fn move_command(config: ProjectConfigView) -> Seq<char> {
    "mv target/release/"@ + config.binary_name() + " "@ + config.install_target()
}

/// The command that resets the working tree to `commit`.
pub open spec fn rollback_command(commit: Seq<char>) -> Seq<char> {
    "git reset --hard "@ + commit
}

/// The pause before an attempt on the sentinel file: none before the
/// first, one interval before every other.
pub open spec fn retry_delay(settings: PipelineSettings, origin: Option<u64>) -> u64 {
    if origin is Some {
        settings.lock_poll.interval_ms
    } else {
        0
    }
}

/// What a run that has come as far as `progress` waits for.
pub open spec fn pending(
    config: ProjectConfigView,
    settings: PipelineSettings,
    progress: ProgressView,
) -> ActionView {
    match progress {
        ProgressView::Idle => request(config, CommandStep::Fetch, "git fetch --all"@),
        ProgressView::Fetched => request(config, CommandStep::Status, "git status"@),
        ProgressView::PullPending { prior_commit } => if records_commit(settings, prior_commit) {
            request(config, CommandStep::RecordCommit, "git log"@)
        } else {
            request(config, CommandStep::Pull, "git pull"@)
        },
        ProgressView::BuildPending { .. } => request(
            config,
            CommandStep::Build,
            "cargo build --release"@,
        ),
        ProgressView::Built { origin } => ActionView::CreateSentinel {
            path: config.lock_path(),
            delay_ms: retry_delay(settings, origin),
        },
        ProgressView::LockHeld { .. } => request(config, CommandStep::Move, move_command(config)),
        ProgressView::Installed { handle, origin } => ActionView::RemoveSentinel {
            path: handle,
            delay_ms: retry_delay(settings, origin),
        },
        ProgressView::Undoing { commit } => request(
            config,
            CommandStep::Rollback,
            rollback_command(commit),
        ),
        ProgressView::Abandoning { handle, origin } => ActionView::RemoveSentinel {
            path: handle,
            delay_ms: retry_delay(settings, origin),
        },
        ProgressView::Done => ActionView::Finish,
        ProgressView::Failed(_) => ActionView::Finish,
    }
}

/// How far a run has come; `ProgressView` says what each variant means.
#[derive(Debug)]
enum Progress {
    Idle,
    Fetched,
    PullPending { prior_commit: Option<String> },
    BuildPending { prior_commit: Option<String> },
    Built { origin: Option<u64> },
    LockHeld { handle: LockHandle },
    Installed { handle: LockHandle, origin: Option<u64> },
    Undoing { commit: String },
    Abandoning { handle: LockHandle, origin: Option<u64> },
    Done,
    Failed(FailureKind),
}

spec fn commit_view(commit: Option<String>) -> Option<Seq<char>> {
    match commit {
        Some(hash) => Some(hash@),
        None => None,
    }
}

impl View for Progress {
    type V = ProgressView;

    closed spec fn view(&self) -> ProgressView {
        match self {
            Progress::Idle => ProgressView::Idle,
            Progress::Fetched => ProgressView::Fetched,
            Progress::PullPending { prior_commit } => ProgressView::PullPending {
                prior_commit: commit_view(*prior_commit),
            },
            Progress::BuildPending { prior_commit } => ProgressView::BuildPending {
                prior_commit: commit_view(*prior_commit),
            },
            Progress::Built { origin } => ProgressView::Built { origin: *origin },
            Progress::LockHeld { handle } => ProgressView::LockHeld { handle: handle@ },
            Progress::Installed { handle, origin } => ProgressView::Installed {
                handle: handle@,
                origin: *origin,
            },
            Progress::Undoing { commit } => ProgressView::Undoing { commit: commit@ },
            Progress::Abandoning { handle, origin } => ProgressView::Abandoning {
                handle: handle@,
                origin: *origin,
            },
            Progress::Done => ProgressView::Done,
            Progress::Failed(kind) => ProgressView::Failed(*kind),
        }
    }
}

/// What one observation brought: the states the run entered, in order, and
/// what there is to report.
#[derive(Debug, PartialEq, Eq)]
pub struct Step {
    pub entered: Vec<Stage>,
    pub report: Report,
}

spec fn step_view(step: (Progress, Step)) -> StepView {
    StepView { next: step.0@, entered: step.1.entered@, report: step.1.report@ }
}

fn step_to(next: Progress, entered: Vec<Stage>, level: LogLevel, message: String) -> (step: (
    Progress,
    Step,
))
    ensures
        step_view(step) == (StepView {
            next: next@,
            entered: entered@,
            report: ReportView { level, message: message@ },
        }),
{
    (next, Step { entered, report: Report { level, message } })
}

fn no_stage() -> (path: Vec<Stage>)
    ensures
        path@ == Seq::<Stage>::empty(),
{
    Vec::new()
}

fn one_stage(first: Stage) -> (path: Vec<Stage>)
    ensures
        path@ == seq![first],
{
    vec![first]
}

fn two_stages(first: Stage, second: Stage) -> (path: Vec<Stage>)
    ensures
        path@ == seq![first, second],
{
    vec![first, second]
}

fn three_stages(first: Stage, second: Stage, third: Stage) -> (path: Vec<Stage>)
    ensures
        path@ == seq![first, second, third],
{
    vec![first, second, third]
}

fn labelled(label: &str, text: &str) -> (message: String)
    ensures
        message@ == label@ + text@,
{
    let mut message = String::from_str(label);
    message.append(text);
    message
}

fn fail_by_command(judgement: Result<CommandOutcome, ExecError>) -> (step: (Progress, Step))
    ensures
        step_view(step) == command_failed(judgement_view(judgement)),
{
    step_to(
        Progress::Failed(FailureKind::CommandFailure),
        one_stage(Stage::Failed(FailureKind::CommandFailure)),
        LogLevel::Error,
        describe_failure(judgement),
    )
}

fn fetched(judgement: Result<CommandOutcome, ExecError>) -> (step: (Progress, Step))
    ensures
        step_view(step) == after_fetch(judgement_view(judgement)),
{
    match judgement {
        Ok(CommandOutcome::Success(stdout)) => step_to(
            Progress::Fetched,
            one_stage(Stage::Fetched),
            LogLevel::Debug,
            labelled("git fetch output:\n", stdout.as_str()),
        ),
        other => fail_by_command(other),
    }
}

fn status_checked(judgement: Result<CommandOutcome, ExecError>) -> (step: (Progress, Step))
    ensures
        step_view(step) == after_status(judgement_view(judgement)),
{
    match judgement {
        Ok(CommandOutcome::Success(stdout)) => {
            if is_up_to_date(stdout.as_str()) {
                step_to(
                    Progress::Done,
                    three_stages(Stage::StatusChecked, Stage::UpToDate, Stage::Done),
                    LogLevel::Info,
                    String::from_str("Nothing to pull for project."),
                )
            } else {
                step_to(
                    Progress::PullPending { prior_commit: None },
                    two_stages(Stage::StatusChecked, Stage::PullPending),
                    LogLevel::Debug,
                    labelled("git status output:\n", stdout.as_str()),
                )
            }
        },
        other => fail_by_command(other),
    }
}

fn commit_recorded(judgement: Result<CommandOutcome, ExecError>) -> (step: (Progress, Step))
    ensures
        step_view(step) == after_record(judgement_view(judgement)),
{
    match judgement {
        Ok(CommandOutcome::Success(stdout)) => {
            let hash = get_current_commit_hash(stdout.as_str());
            let message = labelled("Current commit is ", hash.as_str());
            step_to(
                Progress::PullPending { prior_commit: Some(hash) },
                no_stage(),
                LogLevel::Debug,
                message,
            )
        },
        other => fail_by_command(other),
    }
}

fn pulled(
    config: &ProjectConfig,
    prior_commit: Option<String>,
    judgement: Result<CommandOutcome, ExecError>,
) -> (step: (Progress, Step))
    ensures
        step_view(step) == after_pull(
            config@,
            commit_view(prior_commit),
            judgement_view(judgement),
        ),
{
    match judgement {
        Ok(CommandOutcome::Success(stdout)) => {
            if !config.requests_install() {
                step_to(
                    Progress::Done,
                    three_stages(Stage::Pulled, Stage::NoBuildRequested, Stage::Done),
                    LogLevel::Info,
                    String::from_str("Project was updated."),
                )
            } else {
                match config.check_structure() {
                    Err(error) => {
                        let mut message = labelled("Source path of project ", error.project.as_str());
                        message.append(" is not an absolute path below the root");
                        step_to(
                            Progress::Failed(FailureKind::StructuralConfigError),
                            two_stages(
                                Stage::Pulled,
                                Stage::Failed(FailureKind::StructuralConfigError),
                            ),
                            LogLevel::Error,
                            message,
                        )
                    },
                    Ok(()) => step_to(
                        Progress::BuildPending { prior_commit },
                        two_stages(Stage::Pulled, Stage::BuildPending),
                        LogLevel::Debug,
                        labelled("git pull output:\n", stdout.as_str()),
                    ),
                }
            }
        },
        other => fail_by_command(other),
    }
}

fn built(
    settings: PipelineSettings,
    prior_commit: Option<String>,
    judgement: Result<CommandOutcome, ExecError>,
) -> (step: (Progress, Step))
    ensures
        step_view(step) == after_build(
            settings,
            commit_view(prior_commit),
            judgement_view(judgement),
        ),
{
    match judgement {
        Ok(CommandOutcome::Success(stdout)) => step_to(
            Progress::Built { origin: None },
            one_stage(Stage::Built),
            LogLevel::Debug,
            labelled("cargo build output:\n", stdout.as_str()),
        ),
        other => {
            let next = match prior_commit {
                Some(commit) => if settings.rollback_on_build_failure {
                    Progress::Undoing { commit }
                } else {
                    Progress::Failed(FailureKind::CommandFailure)
                },
                None => Progress::Failed(FailureKind::CommandFailure),
            };
            step_to(
                next,
                one_stage(Stage::Failed(FailureKind::CommandFailure)),
                LogLevel::Error,
                describe_failure(other),
            )
        },
    }
}

fn rolled_back(judgement: Result<CommandOutcome, ExecError>) -> (step: (Progress, Step))
    ensures
        step_view(step) == after_rollback(judgement_view(judgement)),
{
    match judgement {
        Ok(CommandOutcome::Success(stdout)) => step_to(
            Progress::Failed(FailureKind::CommandFailure),
            no_stage(),
            LogLevel::Debug,
            labelled("git reset output:\n", stdout.as_str()),
        ),
        other => step_to(
            Progress::Failed(FailureKind::CommandFailure),
            no_stage(),
            LogLevel::Error,
            describe_failure(other),
        ),
    }
}

fn create_attempted(
    config: &ProjectConfig,
    settings: PipelineSettings,
    origin: Option<u64>,
    done: bool,
    now_ms: u64,
) -> (step: (Progress, Step))
    ensures
        step_view(step) == after_create(config@, settings, origin, done, now_ms),
{
    let mut poll = Poll { policy: settings.lock_poll, origin };
    let path = config.lock_path();
    match acquire_step(&mut poll, config.name(), path.as_str(), done, now_ms) {
        AcquireStep::Acquired(handle) => {
            let message = labelled("Lock acquired: ", handle.path());
            step_to(
                Progress::LockHeld { handle },
                one_stage(Stage::LockHeld),
                LogLevel::Debug,
                message,
            )
        },
        AcquireStep::Retry { .. } => step_to(
            Progress::Built { origin: poll.origin },
            no_stage(),
            LogLevel::Debug,
            String::from_str("Lock file is present, trying again"),
        ),
        AcquireStep::Failed(error) => step_to(
            Progress::Failed(FailureKind::LockAcquisitionTimeout),
            one_stage(Stage::Failed(FailureKind::LockAcquisitionTimeout)),
            LogLevel::Error,
            error.describe(),
        ),
    }
}

fn moved(handle: LockHandle, judgement: Result<CommandOutcome, ExecError>) -> (step: (
    Progress,
    Step,
))
    ensures
        step_view(step) == after_move(handle@, judgement_view(judgement)),
{
    match judgement {
        Ok(CommandOutcome::Success(stdout)) => step_to(
            Progress::Installed { handle, origin: None },
            one_stage(Stage::Installed),
            LogLevel::Debug,
            labelled("move operation output:\n", stdout.as_str()),
        ),
        other => step_to(
            Progress::Abandoning { handle, origin: None },
            one_stage(Stage::Failed(FailureKind::CommandFailure)),
            LogLevel::Error,
            describe_failure(other),
        ),
    }
}

fn release_attempted(
    config: &ProjectConfig,
    settings: PipelineSettings,
    handle: LockHandle,
    origin: Option<u64>,
    done: bool,
    now_ms: u64,
) -> (step: (Progress, Step))
    ensures
        step_view(step) == after_release(config@, settings, handle@, origin, done, now_ms),
{
    let mut poll = Poll { policy: settings.lock_poll, origin };
    match release_step(&mut poll, handle, config.name(), done, now_ms) {
        ReleaseStep::Released => step_to(
            Progress::Done,
            two_stages(Stage::LockReleased, Stage::Done),
            LogLevel::Info,
            String::from_str("Project was updated."),
        ),
        ReleaseStep::Retry { handle, .. } => step_to(
            Progress::Installed { handle, origin: poll.origin },
            no_stage(),
            LogLevel::Debug,
            String::from_str("Lock file could not be removed, trying again"),
        ),
        ReleaseStep::Failed(error) => step_to(
            Progress::Failed(FailureKind::LockReleaseTimeout),
            one_stage(Stage::Failed(FailureKind::LockReleaseTimeout)),
            LogLevel::Error,
            error.describe(),
        ),
    }
}

fn abandon_attempted(
    config: &ProjectConfig,
    settings: PipelineSettings,
    handle: LockHandle,
    origin: Option<u64>,
    done: bool,
    now_ms: u64,
) -> (step: (Progress, Step))
    ensures
        step_view(step) == after_abandon(config@, settings, handle@, origin, done, now_ms),
{
    let mut poll = Poll { policy: settings.lock_poll, origin };
    match release_step(&mut poll, handle, config.name(), done, now_ms) {
        ReleaseStep::Released => step_to(
            Progress::Failed(FailureKind::CommandFailure),
            no_stage(),
            LogLevel::Debug,
            String::from_str("Lock released after the failed move"),
        ),
        ReleaseStep::Retry { handle, .. } => step_to(
            Progress::Abandoning { handle, origin: poll.origin },
            no_stage(),
            LogLevel::Debug,
            String::from_str("Lock file could not be removed, trying again"),
        ),
        ReleaseStep::Failed(error) => step_to(
            Progress::Failed(FailureKind::CommandFailure),
            no_stage(),
            LogLevel::Error,
            error.describe(),
        ),
    }
}

fn ignore(progress: Progress) -> (step: (Progress, Step))
    ensures
        step_view(step) == ignored(progress@),
{
    step_to(
        progress,
        no_stage(),
        LogLevel::Warn,
        String::from_str("Event does not answer what the run waits for"),
    )
}

fn advance(
    config: &ProjectConfig,
    settings: PipelineSettings,
    progress: Progress,
    event: Event,
) -> (step: (Progress, Step))
    ensures
        step_view(step) == transition(config@, settings, progress@, event@),
{
    match (progress, event) {
        (Progress::Idle, Event::Command(judgement)) => fetched(judgement),
        (Progress::Fetched, Event::Command(judgement)) => status_checked(judgement),
        (Progress::PullPending { prior_commit }, Event::Command(judgement)) => {
            if settings.rollback_on_build_failure && prior_commit.is_none() {
                commit_recorded(judgement)
            } else {
                pulled(config, prior_commit, judgement)
            }
        },
        (Progress::BuildPending { prior_commit }, Event::Command(judgement)) => built(
            settings,
            prior_commit,
            judgement,
        ),
        (Progress::Built { origin }, Event::Sentinel { done, now_ms }) => create_attempted(
            config,
            settings,
            origin,
            done,
            now_ms,
        ),
        (Progress::LockHeld { handle }, Event::Command(judgement)) => moved(handle, judgement),
        (Progress::Installed { handle, origin }, Event::Sentinel { done, now_ms }) => {
            release_attempted(config, settings, handle, origin, done, now_ms)
        },
        (Progress::Undoing { .. }, Event::Command(judgement)) => rolled_back(judgement),
        (Progress::Abandoning { handle, origin }, Event::Sentinel { done, now_ms }) => {
            abandon_attempted(config, settings, handle, origin, done, now_ms)
        },
        (progress, _) => ignore(progress),
    }
}

/// The model of a `PipelineRun`.
pub struct RunView {
    pub config: ProjectConfigView,
    pub settings: PipelineSettings,
    pub progress: ProgressView,
}

/// The run of one project, from the fetch to its end.
#[derive(Debug)]
pub struct PipelineRun {
    config: ProjectConfig,
    settings: PipelineSettings,
    progress: Progress,
}

impl View for PipelineRun {
    type V = RunView;

    closed spec fn view(&self) -> RunView {
        RunView { config: self.config@, settings: self.settings, progress: self.progress@ }
    }
}

fn run_command(config: &ProjectConfig, step: CommandStep, command_line: String) -> (action: Action)
    ensures
        action@ == request(config@, step, command_line@),
{
    Action::Run(
        CommandRequest {
            step,
            command_line,
            working_directory: String::from_str(config.source_path()),
            accepted_exit_codes: zero_only(),
        },
    )
}

fn delay_before(settings: PipelineSettings, origin: Option<u64>) -> (delay_ms: u64)
    ensures
        delay_ms == retry_delay(settings, origin),
{
    if origin.is_some() {
        settings.lock_poll.interval_ms
    } else {
        0
    }
}

/// The report that the run of a project begins.
pub fn opening() -> (report: Report)
    ensures
        report@ == opening_report(),
{
    Report { level: LogLevel::Debug, message: String::from_str("Beginning update for project.") }
}

impl PipelineRun {
    /// A run of the project `config` that has done nothing yet.
    pub fn new(config: ProjectConfig, settings: PipelineSettings) -> (run: PipelineRun)
        ensures
            run@ == (RunView { config: config@, settings, progress: ProgressView::Idle }),
    {
        PipelineRun { config, settings, progress: Progress::Idle }
    }

    /// The project of this run.
    pub fn config(&self) -> (config: &ProjectConfig)
        ensures
            config@ == self@.config,
    {
        &self.config
    }

    /// The state of the run.
    pub fn stage(&self) -> (stage: Stage)
        ensures
            stage == self@.progress.stage(),
    {
        match &self.progress {
            Progress::Idle => Stage::Idle,
            Progress::Fetched => Stage::Fetched,
            Progress::PullPending { .. } => Stage::PullPending,
            Progress::BuildPending { .. } => Stage::BuildPending,
            Progress::Built { .. } => Stage::Built,
            Progress::LockHeld { .. } => Stage::LockHeld,
            Progress::Installed { .. } => Stage::Installed,
            Progress::Undoing { .. } => Stage::Failed(FailureKind::CommandFailure),
            Progress::Abandoning { .. } => Stage::Failed(FailureKind::CommandFailure),
            Progress::Done => Stage::Done,
            Progress::Failed(kind) => Stage::Failed(*kind),
        }
    }

    /// Tells whether the run is over.
    pub fn is_finished(&self) -> (yes: bool)
        ensures
            yes == self@.progress.finished(),
            yes <==> pending(self@.config, self@.settings, self@.progress) is Finish,
    {
        match &self.progress {
            Progress::Done => true,
            Progress::Failed(_) => true,
            _ => false,
        }
    }

    /// Tells whether the run has the installation lock.
    pub fn holds_lock(&self) -> (yes: bool)
        ensures
            yes == self@.progress.holds_lock(),
    {
        match &self.progress {
            Progress::LockHeld { .. } => true,
            Progress::Installed { .. } => true,
            Progress::Abandoning { .. } => true,
            _ => false,
        }
    }

    /// What the run waits for. It is asked of the caller until an event
    /// that answers it is observed.
    pub fn pending(&self) -> (action: Action)
        ensures
            action@ == pending(self@.config, self@.settings, self@.progress),
    {
        match &self.progress {
            Progress::Idle => run_command(
                &self.config,
                CommandStep::Fetch,
                String::from_str("git fetch --all"),
            ),
            Progress::Fetched => run_command(
                &self.config,
                CommandStep::Status,
                String::from_str("git status"),
            ),
            Progress::PullPending { prior_commit } => {
                if self.settings.rollback_on_build_failure && prior_commit.is_none() {
                    run_command(&self.config, CommandStep::RecordCommit, String::from_str("git log"))
                } else {
                    run_command(&self.config, CommandStep::Pull, String::from_str("git pull"))
                }
            },
            Progress::BuildPending { .. } => run_command(
                &self.config,
                CommandStep::Build,
                String::from_str("cargo build --release"),
            ),
            Progress::Built { origin } => Action::CreateSentinel {
                path: self.config.lock_path(),
                delay_ms: delay_before(self.settings, *origin),
            },
            Progress::LockHeld { .. } => {
                let mut command_line = String::from_str("mv target/release/");
                command_line.append(self.config.binary_name().as_str());
                command_line.append(" ");
                command_line.append(self.config.install_target().as_str());
                run_command(&self.config, CommandStep::Move, command_line)
            },
            Progress::Installed { handle, origin } => Action::RemoveSentinel {
                path: String::from_str(handle.path()),
                delay_ms: delay_before(self.settings, *origin),
            },
            Progress::Undoing { commit } => run_command(
                &self.config,
                CommandStep::Rollback,
                labelled("git reset --hard ", commit.as_str()),
            ),
            Progress::Abandoning { handle, origin } => Action::RemoveSentinel {
                path: String::from_str(handle.path()),
                delay_ms: delay_before(self.settings, *origin),
            },
            Progress::Done => Action::Finish,
            Progress::Failed(_) => Action::Finish,
        }
    }

    /// Moves the run on by what the caller reports. An event that answers
    /// what the run waits for takes it to its next state; any other event
    /// leaves it where it is, still waiting for the same.
    pub fn observe(self, event: Event) -> (next: (PipelineRun, Step))
        ensures
            next.0@.config == self@.config,
            next.0@.settings == self@.settings,
            (StepView {
                next: next.0@.progress,
                entered: next.1.entered@,
                report: next.1.report@,
            }) == transition(self@.config, self@.settings, self@.progress, event@),
    {
        let PipelineRun { config, settings, progress } = self;
        let (progress, step) = advance(&config, settings, progress, event);
        (PipelineRun { config, settings, progress }, step)
    }
}

} // verus!
