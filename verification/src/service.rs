//! Stopping and starting the background service that uses the installed
//! binaries, and making sure that it did stop or start.
//!
//! A `ServiceChange` first asks for the command that stops or starts the
//! service, then for the status command, again and again under its poll
//! policy, until the status shows the state that was asked for. It never
//! takes a state for reached that no status output has shown.

use crate::executor::{
    describe_failure, failure_text, judgement_view, zero_only, CommandOutcome, CommandOutcomeView,
    ExecError, ExecErrorView,
};
use crate::poller::{
    elapsed_since, origin_after, poll_decision, Poll, PollOutcome, PollPolicy, PollStep,
};
use crate::report::{LogLevel, Report, ReportView};
use crate::text::{contains, contains_text};
use vstd::prelude::*;
use vstd::string::*;

verus! {

/// How the service is stopped, started and asked for its state, and how
/// its status output shows that it is stopped or running.
#[derive(Debug, PartialEq, Eq)]
pub struct ServiceSpec {
    pub stop_command: String,
    pub start_command: String,
    /// The status command; the exit codes 0 and 3 are accepted of it.
    pub status_command: String,
    /// The phrase in the status output of a service that is stopped.
    pub inactive_marker: String,
    /// The phrase in the status output of a service that is running.
    pub running_marker: String,
    /// The directory in which the three commands are run.
    pub working_directory: String,
}

/// The model of a `ServiceSpec`.
pub struct ServiceSpecView {
    pub stop_command: Seq<char>,
    pub start_command: Seq<char>,
    pub status_command: Seq<char>,
    pub inactive_marker: Seq<char>,
    pub running_marker: Seq<char>,
    pub working_directory: Seq<char>,
}

impl View for ServiceSpec {
    type V = ServiceSpecView;

    open spec fn view(&self) -> ServiceSpecView {
        ServiceSpecView {
            stop_command: self.stop_command@,
            start_command: self.start_command@,
            status_command: self.status_command@,
            inactive_marker: self.inactive_marker@,
            running_marker: self.running_marker@,
            working_directory: self.working_directory@,
        }
    }
}

/// The description of the systemd unit `unit`: it is stopped, started and
/// asked for its state through `systemctl`, whose status output calls a
/// stopped unit `inactive (dead)` and a running one `active (running)`.
pub open spec fn systemd_unit(unit: Seq<char>) -> ServiceSpecView {
    ServiceSpecView {
        stop_command: "systemctl stop "@ + unit,
        start_command: "systemctl start "@ + unit,
        status_command: "systemctl status "@ + unit,
        inactive_marker: "inactive (dead)"@,
        running_marker: "active (running)"@,
        working_directory: "/"@,
    }
}

fn with_unit(command: &str, unit: &str) -> (command_line: String)
    ensures
        command_line@ == command@ + unit@,
{
    let mut command_line = String::from_str(command);
    command_line.append(unit);
    command_line
}

impl ServiceSpec {
    /// Describes the systemd unit `unit`.
    pub fn systemd(unit: &str) -> (service: ServiceSpec)
        ensures
            service@ == systemd_unit(unit@),
    {
        ServiceSpec {
            stop_command: with_unit("systemctl stop ", unit),
            start_command: with_unit("systemctl start ", unit),
            status_command: with_unit("systemctl status ", unit),
            inactive_marker: String::from_str("inactive (dead)"),
            running_marker: String::from_str("active (running)"),
            working_directory: String::from_str("/"),
        }
    }
}

/// The state the service is to be brought to.
#[derive(Clone, Copy, Debug, PartialEq, Eq, Structural)]
pub enum Goal {
    Stopped,
    Started,
}

impl ServiceSpecView {
    /// The command that brings the service to `goal`.
    pub open spec fn command(self, goal: Goal) -> Seq<char> {
        match goal {
            Goal::Stopped => self.stop_command,
            Goal::Started => self.start_command,
        }
    }

    /// The phrase that shows `goal` in the status output.
    pub open spec fn marker(self, goal: Goal) -> Seq<char> {
        match goal {
            Goal::Stopped => self.inactive_marker,
            Goal::Started => self.running_marker,
        }
    }
}

/// Why a change of the service's state failed.
#[derive(Clone, Copy, Debug, PartialEq, Eq, Structural)]
pub enum ServiceFailure {
    /// The stop, start or status command did not succeed.
    CommandFailure,
    /// The status did not show the state asked for before the deadline.
    ConvergenceTimeout,
}

/// How far a change of the service's state has come.
#[derive(Clone, Copy, Debug, PartialEq, Eq, Structural)]
pub enum ServiceProgress {
    /// The stop or start command is due.
    Commanding,
    /// The command succeeded; a status that shows the new state is due.
    /// `origin` is the time of the first status.
    Confirming { origin: Option<u64> },
    /// A status has shown the state asked for.
    Confirmed,
    /// The change failed.
    Failed(ServiceFailure),
}

/// What a change of the service's state waits for.
#[derive(Debug, PartialEq, Eq)]
pub enum ServiceAction {
    /// Pause for `delay_ms`, then run this command, and report how it
    /// ended and what the clock read when it was run.
    Run { command_line: String, working_directory: String, accepted_exit_codes: Vec<i32>, delay_ms: u64 },
    /// Nothing: the change is over.
    Finish,
}

/// The model of a `ServiceAction`.
pub enum ServiceActionView {
    Run {
        command_line: Seq<char>,
        working_directory: Seq<char>,
        accepted_exit_codes: Seq<i32>,
        delay_ms: u64,
    },
    Finish,
}

impl View for ServiceAction {
    type V = ServiceActionView;

    open spec fn view(&self) -> ServiceActionView {
        match self {
            ServiceAction::Run {
                command_line,
                working_directory,
                accepted_exit_codes,
                delay_ms,
            } => ServiceActionView::Run {
                command_line: command_line@,
                working_directory: working_directory@,
                accepted_exit_codes: accepted_exit_codes@,
                delay_ms: *delay_ms,
            },
            ServiceAction::Finish => ServiceActionView::Finish,
        }
    }
}

/// What observing a command does to a change of the service's state.
pub struct ServiceStepView {
    pub next: ServiceProgress,
    pub report: ReportView,
}

/// The change fails by a command, with the command's own words.
pub open spec fn service_command_failed(judgement: Result<CommandOutcomeView, ExecErrorView>)
    -> ServiceStepView {
    ServiceStepView {
        next: ServiceProgress::Failed(ServiceFailure::CommandFailure),
        report: ReportView { level: LogLevel::Error, message: failure_text(judgement) },
    }
}

/// What is said when the state asked for did not show before the deadline.
pub open spec fn convergence_text(goal: Goal) -> Seq<char> {
    match goal {
        Goal::Stopped => "Service did not stop before the deadline"@,
        Goal::Started => "Service did not start before the deadline"@,
    }
}

/// What observing the end of the command asked for, run when the clock
/// read `now_ms`, does to a change that has come as far as `progress`.
///
/// A stop or start command that fails, fails the change. So does a status
/// command that fails: its failure is not taken for a state not yet
/// reached. A status that succeeds is searched for the marker of the goal,
/// and the poll policy decides what follows.
pub open spec fn service_transition(
    service: ServiceSpecView,
    goal: Goal,
    policy: PollPolicy,
    progress: ServiceProgress,
    judgement: Result<CommandOutcomeView, ExecErrorView>,
    now_ms: u64,
) -> ServiceStepView {
    match progress {
        ServiceProgress::Commanding => match judgement {
            Ok(CommandOutcomeView::Success(stdout)) => ServiceStepView {
                next: ServiceProgress::Confirming { origin: None },
                report: ReportView { level: LogLevel::Debug, message: stdout },
            },
            _ => service_command_failed(judgement),
        },
        ServiceProgress::Confirming { origin } => match judgement {
            Ok(CommandOutcomeView::Success(stdout)) => match poll_decision(
                policy,
                elapsed_since(origin, now_ms),
                contains_text(stdout, service.marker(goal)),
            ) {
                PollStep::Done(PollOutcome::Converged) => ServiceStepView {
                    next: ServiceProgress::Confirmed,
                    report: ReportView { level: LogLevel::Info, message: stdout },
                },
                PollStep::Done(PollOutcome::TimedOut) => ServiceStepView {
                    next: ServiceProgress::Failed(ServiceFailure::ConvergenceTimeout),
                    report: ReportView { level: LogLevel::Error, message: convergence_text(goal) },
                },
                PollStep::Sleep(_) => ServiceStepView {
                    next: ServiceProgress::Confirming { origin: origin_after(origin, now_ms) },
                    report: ReportView { level: LogLevel::Debug, message: stdout },
                },
            },
            _ => service_command_failed(judgement),
        },
        _ => ServiceStepView {
            next: progress,
            report: ReportView {
                level: LogLevel::Warn,
                message: "The change of the service's state is over"@,
            },
        },
    }
}

/// What a change that has come as far as `progress` waits for.
pub open spec fn service_pending(
    service: ServiceSpecView,
    goal: Goal,
    policy: PollPolicy,
    progress: ServiceProgress,
) -> ServiceActionView {
    match progress {
        ServiceProgress::Commanding => ServiceActionView::Run {
            command_line: service.command(goal),
            working_directory: service.working_directory,
            accepted_exit_codes: seq![0i32],
            delay_ms: 0,
        },
        ServiceProgress::Confirming { origin } => ServiceActionView::Run {
            command_line: service.status_command,
            working_directory: service.working_directory,
            accepted_exit_codes: seq![0i32, 3i32],
            delay_ms: if origin is Some {
                policy.interval_ms
            } else {
                0
            },
        },
        _ => ServiceActionView::Finish,
    }
}

/// The model of a `ServiceChange`.
pub struct ServiceChangeView {
    pub service: ServiceSpecView,
    pub goal: Goal,
    pub policy: PollPolicy,
    pub progress: ServiceProgress,
}

/// One change of the service's state, from the command to its
/// confirmation.
#[derive(Debug)]
pub struct ServiceChange {
    service: ServiceSpec,
    goal: Goal,
    policy: PollPolicy,
    progress: ServiceProgress,
}

impl View for ServiceChange {
    type V = ServiceChangeView;

    closed spec fn view(&self) -> ServiceChangeView {
        ServiceChangeView {
            service: self.service@,
            goal: self.goal,
            policy: self.policy,
            progress: self.progress,
        }
    }
}

fn status_codes() -> (accepted: Vec<i32>)
    ensures
        accepted@ == seq![0i32, 3i32],
{
    vec![0i32, 3i32]
}

fn say(next: ServiceProgress, level: LogLevel, message: String) -> (step: (ServiceProgress, Report))
    ensures
        (ServiceStepView { next: step.0, report: step.1@ }) == (ServiceStepView {
            next,
            report: ReportView { level, message: message@ },
        }),
{
    (next, Report { level, message })
}

impl ServiceChange {
    /// The change that brings `service` to `goal`, confirmed under
    /// `policy`; nothing of it is done yet.
    pub fn new(service: ServiceSpec, goal: Goal, policy: PollPolicy) -> (change: ServiceChange)
        ensures
            change@ == (ServiceChangeView {
                service: service@,
                goal,
                policy,
                progress: ServiceProgress::Commanding,
            }),
    {
        ServiceChange { service, goal, policy, progress: ServiceProgress::Commanding }
    }

    /// How far the change has come.
    pub fn progress(&self) -> (progress: ServiceProgress)
        ensures
            progress == self@.progress,
    {
        self.progress
    }

    /// What the change waits for.
    pub fn pending(&self) -> (action: ServiceAction)
        ensures
            action@ == service_pending(self@.service, self@.goal, self@.policy, self@.progress),
    {
        match self.progress {
            ServiceProgress::Commanding => {
                let command_line = match self.goal {
                    Goal::Stopped => self.service.stop_command.clone(),
                    Goal::Started => self.service.start_command.clone(),
                };
                ServiceAction::Run {
                    command_line,
                    working_directory: self.service.working_directory.clone(),
                    accepted_exit_codes: zero_only(),
                    delay_ms: 0,
                }
            },
            ServiceProgress::Confirming { origin } => ServiceAction::Run {
                command_line: self.service.status_command.clone(),
                working_directory: self.service.working_directory.clone(),
                accepted_exit_codes: status_codes(),
                delay_ms: if origin.is_some() {
                    self.policy.interval_ms
                } else {
                    0
                },
            },
            _ => ServiceAction::Finish,
        }
    }

    /// Moves the change on by the end of the command it asked for, which
    /// was run when the clock read `now_ms`.
    pub fn observe(self, judgement: Result<CommandOutcome, ExecError>, now_ms: u64) -> (next: (
        ServiceChange,
        Report,
    ))
        ensures
            next.0@.service == self@.service,
            next.0@.goal == self@.goal,
            next.0@.policy == self@.policy,
            (ServiceStepView { next: next.0@.progress, report: next.1@ }) == service_transition(
                self@.service,
                self@.goal,
                self@.policy,
                self@.progress,
                judgement_view(judgement),
                now_ms,
            ),
    {
        let ServiceChange { service, goal, policy, progress } = self;
        let (progress, report) = match progress {
            ServiceProgress::Commanding => match judgement {
                Ok(CommandOutcome::Success(stdout)) => say(
                    ServiceProgress::Confirming { origin: None },
                    LogLevel::Debug,
                    stdout,
                ),
                other => say(
                    ServiceProgress::Failed(ServiceFailure::CommandFailure),
                    LogLevel::Error,
                    describe_failure(other),
                ),
            },
            ServiceProgress::Confirming { origin } => match judgement {
                Ok(CommandOutcome::Success(stdout)) => {
                    let marker = match goal {
                        Goal::Stopped => service.inactive_marker.as_str(),
                        Goal::Started => service.running_marker.as_str(),
                    };
                    let shown = contains(stdout.as_str(), marker);
                    let mut poll = Poll { policy, origin };
                    match poll.observe(now_ms, shown) {
                        PollStep::Done(PollOutcome::Converged) => say(
                            ServiceProgress::Confirmed,
                            LogLevel::Info,
                            stdout,
                        ),
                        PollStep::Done(PollOutcome::TimedOut) => say(
                            ServiceProgress::Failed(ServiceFailure::ConvergenceTimeout),
                            LogLevel::Error,
                            match goal {
                                Goal::Stopped => String::from_str(
                                    "Service did not stop before the deadline",
                                ),
                                Goal::Started => String::from_str(
                                    "Service did not start before the deadline",
                                ),
                            },
                        ),
                        PollStep::Sleep(_) => say(
                            ServiceProgress::Confirming { origin: poll.origin },
                            LogLevel::Debug,
                            stdout,
                        ),
                    }
                },
                other => say(
                    ServiceProgress::Failed(ServiceFailure::CommandFailure),
                    LogLevel::Error,
                    describe_failure(other),
                ),
            },
            over => say(
                over,
                LogLevel::Warn,
                String::from_str("The change of the service's state is over"),
            ),
        };
        (ServiceChange { service, goal, policy, progress }, report)
    }
}

/// The state asked for is taken for reached only where a status output
/// has shown it: a change is confirmed by nothing but a status command
/// that succeeded and whose output holds the marker of the goal.
pub proof fn lemma_confirmed_only_when_shown(
    service: ServiceSpecView,
    goal: Goal,
    policy: PollPolicy,
    progress: ServiceProgress,
    judgement: Result<CommandOutcomeView, ExecErrorView>,
    now_ms: u64,
)
    requires
        !(progress is Confirmed),
        service_transition(service, goal, policy, progress, judgement, now_ms).next is Confirmed,
    ensures
        progress is Confirming,
        judgement matches Ok(CommandOutcomeView::Success(stdout)) && contains_text(
            stdout,
            service.marker(goal),
        ),
{
}

/// A change gives up waiting only at or after its deadline, counted from
/// its first status.
pub proof fn lemma_convergence_timeout_not_early(
    service: ServiceSpecView,
    goal: Goal,
    policy: PollPolicy,
    origin: Option<u64>,
    judgement: Result<CommandOutcomeView, ExecErrorView>,
    now_ms: u64,
)
    requires
        service_transition(
            service,
            goal,
            policy,
            ServiceProgress::Confirming { origin },
            judgement,
            now_ms,
        ).next == ServiceProgress::Failed(ServiceFailure::ConvergenceTimeout),
    ensures
        elapsed_since(origin, now_ms) >= policy.deadline_ms,
{
}

} // verus!
