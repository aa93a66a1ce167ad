//! One run of the worker over all its projects.
//!
//! Where a service is configured it is paused once for the whole run, not
//! once for each project: it is stopped before any project is touched and
//! started after the last. The worker goes on only from a state of the
//! service that a status has confirmed, and gives the whole run up where it
//! cannot. Between the two, each project is updated in turn, in the order
//! given. A project that fails is reported and left behind; the next one
//! has its turn all the same.

use crate::config::{ProjectConfig, ProjectConfigView};
use crate::executor::{
    judgement_view, CommandOutcome, CommandOutcomeView, ExecError, ExecErrorView,
};
use crate::pipeline::{
    opening, opening_report, pending, transition, Action, ActionView, Event, EventView,
    PipelineRun, PipelineSettings, ProgressView, RunView, Stage,
};
use crate::poller::PollPolicy;
use crate::report::{LogLevel, Report, ReportView};
use crate::service::{
    service_pending, service_transition, Goal, ServiceAction, ServiceActionView, ServiceChange,
    ServiceChangeView, ServiceFailure, ServiceProgress, ServiceSpec, ServiceSpecView,
};
use vstd::prelude::*;
use vstd::string::*;

verus! {

/// What can be set for a run of the worker.
#[derive(Clone, Copy, Debug, PartialEq, Eq, Structural)]
pub struct BatchSettings {
    pub pipeline: PipelineSettings,
    /// How to wait for the service to show that it stopped or started.
    pub service_poll: PollPolicy,
}

/// What a run of the worker waits for.
#[derive(Debug, PartialEq, Eq)]
pub enum BatchAction {
    /// This, for the service.
    Service(ServiceAction),
    /// This, for the project that is being updated.
    Project(Action),
    /// Nothing: the run of the worker is over.
    Finish,
}

/// The model of a `BatchAction`.
pub enum BatchActionView {
    Service(ServiceActionView),
    Project(ActionView),
    Finish,
}

impl View for BatchAction {
    type V = BatchActionView;

    open spec fn view(&self) -> BatchActionView {
        match self {
            BatchAction::Service(action) => BatchActionView::Service(action@),
            BatchAction::Project(action) => BatchActionView::Project(action@),
            BatchAction::Finish => BatchActionView::Finish,
        }
    }
}

/// What the caller reports back to a run of the worker.
#[derive(Debug, PartialEq, Eq)]
pub enum BatchEvent {
    /// The command asked for on behalf of the service ended like this; it
    /// was run when the clock read `now_ms`.
    Service { judgement: Result<CommandOutcome, ExecError>, now_ms: u64 },
    /// This came of what was asked for on behalf of the project.
    Project(Event),
}

/// The model of a `BatchEvent`.
pub enum BatchEventView {
    Service { judgement: Result<CommandOutcomeView, ExecErrorView>, now_ms: u64 },
    Project(EventView),
}

impl View for BatchEvent {
    type V = BatchEventView;

    open spec fn view(&self) -> BatchEventView {
        match self {
            BatchEvent::Service { judgement, now_ms } => BatchEventView::Service {
                judgement: judgement_view(*judgement),
                now_ms: *now_ms,
            },
            BatchEvent::Project(event) => BatchEventView::Project(event@),
        }
    }
}

/// Where a run of the worker stands.
pub enum PhaseView {
    /// The service is being stopped; no project has been touched.
    Stopping(ServiceChangeView),
    /// A project is being updated.
    Updating(RunView),
    /// Every project has had its turn; the service is being started.
    Starting(ServiceChangeView),
    /// Every project has had its turn and the service, if there is one,
    /// runs again.
    Finished,
    /// The service could not be brought to `goal`: the run is given up.
    Aborted { goal: Goal, failure: ServiceFailure },
}

/// The model of a `Batch`.
pub struct BatchView {
    pub settings: BatchSettings,
    pub service: Option<ServiceSpecView>,
    /// The projects whose turn is still to come, in order.
    pub waiting: Seq<ProjectConfigView>,
    pub phase: PhaseView,
    /// The state in which each project's run ended, in the order of their
    /// turns.
    pub outcomes: Seq<Stage>,
}

impl BatchView {
    /// The number of projects that have had their turn, have it now or
    /// are still to have it.
    pub open spec fn projects(self) -> nat {
        self.outcomes.len() + self.waiting.len() + if self.phase is Updating {
            1nat
        } else {
            0nat
        }
    }

    /// The run of the worker is over.
    pub open spec fn over(self) -> bool {
        self.phase is Finished || self.phase is Aborted
    }
}

/// A run of `config` that has done nothing yet.
pub open spec fn fresh_run(settings: BatchSettings, config: ProjectConfigView) -> RunView {
    RunView { config, settings: settings.pipeline, progress: ProgressView::Idle }
}

/// A change of `service` to `goal` of which nothing is done yet.
pub open spec fn fresh_change(settings: BatchSettings, service: ServiceSpecView, goal: Goal)
    -> ServiceChangeView {
    ServiceChangeView {
        service,
        goal,
        policy: settings.service_poll,
        progress: ServiceProgress::Commanding,
    }
}

/// One thing to report, with the project it is about, if any, and the
/// states which that project's run entered.
pub struct NoticeView {
    pub project: Option<Seq<char>>,
    pub entered: Seq<Stage>,
    pub report: ReportView,
}

/// The run of the worker goes on to the next project, or, where none is
/// left, to the start of the service, or to its end.
pub open spec fn proceed(before: BatchView) -> BatchView {
    if before.waiting.len() > 0 {
        BatchView {
            phase: PhaseView::Updating(fresh_run(before.settings, before.waiting[0])),
            waiting: before.waiting.skip(1),
            ..before
        }
    } else {
        match before.service {
            Some(service) => BatchView {
                phase: PhaseView::Starting(fresh_change(before.settings, service, Goal::Started)),
                ..before
            },
            None => BatchView { phase: PhaseView::Finished, ..before },
        }
    }
}

/// What is reported when the run of the worker goes on from `before`: that
/// the run of the next project begins, if there is one.
pub open spec fn proceeding(before: BatchView) -> Seq<NoticeView> {
    if before.waiting.len() > 0 {
        seq![
            NoticeView {
                project: Some(before.waiting[0].name),
                entered: Seq::empty(),
                report: opening_report(),
            },
        ]
    } else {
        Seq::empty()
    }
}

/// A run of the worker over `projects` of which nothing is done yet.
pub open spec fn batch_start(
    settings: BatchSettings,
    service: Option<ServiceSpecView>,
    projects: Seq<ProjectConfigView>,
) -> BatchView {
    let nothing_done = BatchView {
        settings,
        service,
        waiting: projects,
        phase: PhaseView::Finished,
        outcomes: Seq::empty(),
    };
    match service {
        Some(unit) => BatchView {
            phase: PhaseView::Stopping(fresh_change(settings, unit, Goal::Stopped)),
            ..nothing_done
        },
        None => proceed(nothing_done),
    }
}

/// What is reported when a run of the worker over `projects` is set up:
/// that the run of the first project begins, where no service is to be
/// stopped before.
pub open spec fn batch_start_notices(
    service: Option<ServiceSpecView>,
    projects: Seq<ProjectConfigView>,
) -> Seq<NoticeView> {
    if service is None && projects.len() > 0 {
        seq![
            NoticeView {
                project: Some(projects[0].name),
                entered: Seq::empty(),
                report: opening_report(),
            },
        ]
    } else {
        Seq::empty()
    }
}

/// What one observation does to a run of the worker: where it stands
/// afterwards and what there is to report, in order.
pub struct BatchStepView {
    pub next: BatchView,
    pub notices: Seq<NoticeView>,
}

/// After a step of the change that brings the service to `goal`, for which
/// the run of the worker waits. A change that is confirmed lets the run go
/// on; one that fails ends it.
pub open spec fn after_service(
    before: BatchView,
    goal: Goal,
    change: ServiceChangeView,
    judgement: Result<CommandOutcomeView, ExecErrorView>,
    now_ms: u64,
) -> BatchStepView {
    let step = service_transition(
        change.service,
        change.goal,
        change.policy,
        change.progress,
        judgement,
        now_ms,
    );
    let moved = ServiceChangeView { progress: step.next, ..change };
    let notice = NoticeView { project: None, entered: Seq::empty(), report: step.report };
    match step.next {
        ServiceProgress::Confirmed => match goal {
            Goal::Stopped => BatchStepView {
                next: proceed(before),
                notices: seq![notice] + proceeding(before),
            },
            Goal::Started => BatchStepView {
                next: BatchView { phase: PhaseView::Finished, ..before },
                notices: seq![notice],
            },
        },
        ServiceProgress::Failed(failure) => BatchStepView {
            next: BatchView { phase: PhaseView::Aborted { goal, failure }, ..before },
            notices: seq![notice],
        },
        _ => BatchStepView {
            next: BatchView {
                phase: match goal {
                    Goal::Stopped => PhaseView::Stopping(moved),
                    Goal::Started => PhaseView::Starting(moved),
                },
                ..before
            },
            notices: seq![notice],
        },
    }
}

/// After a step of the project that is being updated. Once its run is
/// over, however it ended, the next project has its turn.
pub open spec fn after_project(before: BatchView, run: RunView, event: EventView) -> BatchStepView {
    let step = transition(run.config, run.settings, run.progress, event);
    let notice = NoticeView {
        project: Some(run.config.name),
        entered: step.entered,
        report: step.report,
    };
    if step.next.finished() {
        BatchStepView {
            next: proceed(BatchView { outcomes: before.outcomes.push(step.next.stage()), ..before }),
            notices: seq![notice] + proceeding(before),
        }
    } else {
        BatchStepView {
            next: BatchView {
                phase: PhaseView::Updating(RunView { progress: step.next, ..run }),
                ..before
            },
            notices: seq![notice],
        }
    }
}

/// What observing `event` does to a run of the worker. An event that does
/// not answer what the run waits for changes nothing.
pub open spec fn batch_transition(before: BatchView, event: BatchEventView) -> BatchStepView {
    match (before.phase, event) {
        (PhaseView::Stopping(change), BatchEventView::Service { judgement, now_ms }) => {
            after_service(before, Goal::Stopped, change, judgement, now_ms)
        },
        (PhaseView::Starting(change), BatchEventView::Service { judgement, now_ms }) => {
            after_service(before, Goal::Started, change, judgement, now_ms)
        },
        (PhaseView::Updating(run), BatchEventView::Project(event)) => after_project(
            before,
            run,
            event,
        ),
        _ => BatchStepView {
            next: before,
            notices: seq![
                NoticeView {
                    project: None,
                    entered: Seq::empty(),
                    report: ReportView {
                        level: LogLevel::Warn,
                        message: "Event does not answer what the worker waits for"@,
                    },
                },
            ],
        },
    }
}

/// What a run of the worker waits for.
pub open spec fn batch_pending(batch: BatchView) -> BatchActionView {
    match batch.phase {
        PhaseView::Stopping(change) => BatchActionView::Service(
            service_pending(change.service, change.goal, change.policy, change.progress),
        ),
        PhaseView::Starting(change) => BatchActionView::Service(
            service_pending(change.service, change.goal, change.policy, change.progress),
        ),
        PhaseView::Updating(run) => BatchActionView::Project(
            pending(run.config, run.settings, run.progress),
        ),
        PhaseView::Finished => BatchActionView::Finish,
        PhaseView::Aborted { .. } => BatchActionView::Finish,
    }
}

/// Where a run of the worker stands; `PhaseView` says what each variant
/// means.
#[derive(Debug)]
enum Phase {
    Stopping(ServiceChange),
    Updating(PipelineRun),
    Starting(ServiceChange),
    Finished,
    Aborted { goal: Goal, failure: ServiceFailure },
}

impl View for Phase {
    type V = PhaseView;

    closed spec fn view(&self) -> PhaseView {
        match self {
            Phase::Stopping(change) => PhaseView::Stopping(change@),
            Phase::Updating(run) => PhaseView::Updating(run@),
            Phase::Starting(change) => PhaseView::Starting(change@),
            Phase::Finished => PhaseView::Finished,
            Phase::Aborted { goal, failure } => PhaseView::Aborted {
                goal: *goal,
                failure: *failure,
            },
        }
    }
}

/// One thing to report: the project it is about, if any, the states which
/// that project's run entered, and the message.
#[derive(Debug, PartialEq, Eq)]
pub struct Notice {
    pub project: Option<String>,
    pub entered: Vec<Stage>,
    pub report: Report,
}

impl View for Notice {
    type V = NoticeView;

    open spec fn view(&self) -> NoticeView {
        NoticeView {
            project: name_view(self.project),
            entered: self.entered@,
            report: self.report@,
        }
    }
}

/// The models of `notices`, in order.
pub open spec fn notice_views(notices: Seq<Notice>) -> Seq<NoticeView> {
    Seq::new(notices.len(), |i: int| notices[i]@)
}

/// One run of the worker over all its projects.
#[derive(Debug)]
pub struct Batch {
    settings: BatchSettings,
    service: Option<ServiceSpec>,
    waiting: Vec<ProjectConfig>,
    phase: Phase,
    outcomes: Vec<Stage>,
}

/// The model of the service, if there is one.
pub open spec fn service_view(service: Option<ServiceSpec>) -> Option<ServiceSpecView> {
    match service {
        Some(unit) => Some(unit@),
        None => None,
    }
}

/// The name as a text, if there is one.
pub open spec fn name_view(name: Option<String>) -> Option<Seq<char>> {
    match name {
        Some(text) => Some(text@),
        None => None,
    }
}

/// The models of the projects of `configs`, in order.
pub open spec fn config_views(configs: Seq<ProjectConfig>) -> Seq<ProjectConfigView> {
    Seq::new(configs.len(), |i: int| configs[i]@)
}

impl View for Batch {
    type V = BatchView;

    closed spec fn view(&self) -> BatchView {
        BatchView {
            settings: self.settings,
            service: service_view(self.service),
            waiting: config_views(self.waiting@),
            phase: self.phase@,
            outcomes: self.outcomes@,
        }
    }
}

fn duplicate(service: &ServiceSpec) -> (copy: ServiceSpec)
    ensures
        copy@ == service@,
{
    ServiceSpec {
        stop_command: service.stop_command.clone(),
        start_command: service.start_command.clone(),
        status_command: service.status_command.clone(),
        inactive_marker: service.inactive_marker.clone(),
        running_marker: service.running_marker.clone(),
        working_directory: service.working_directory.clone(),
    }
}

fn one_notice(project: Option<String>, entered: Vec<Stage>, report: Report) -> (notices: Vec<
    Notice,
>)
    ensures
        notice_views(notices@) == seq![
            NoticeView { project: name_view(project), entered: entered@, report: report@ },
        ],
{
    vec![Notice { project, entered, report }]
}

fn go_on(
    settings: BatchSettings,
    service: Option<ServiceSpec>,
    waiting: Vec<ProjectConfig>,
    outcomes: Vec<Stage>,
    notices: Vec<Notice>,
) -> (next: (Batch, Vec<Notice>))
    ensures
        ({
            let before = BatchView {
                settings,
                service: service_view(service),
                waiting: config_views(waiting@),
                phase: PhaseView::Finished,
                outcomes: outcomes@,
            };
            &&& next.0@ == proceed(before)
            &&& notice_views(next.1@) == notice_views(notices@) + proceeding(before)
        }),
{
    let mut waiting = waiting;
    let mut notices = notices;
    if waiting.len() > 0 {
        let ghost all = waiting@;
        let config = waiting.remove(0);
        assert(config_views(waiting@) =~= config_views(all).skip(1));
        notices.push(
            Notice {
                project: Some(String::from_str(config.name())),
                entered: Vec::new(),
                report: opening(),
            },
        );
        (
            Batch {
                settings,
                service,
                waiting,
                phase: Phase::Updating(PipelineRun::new(config, settings.pipeline)),
                outcomes,
            },
            notices,
        )
    } else {
        let phase = match &service {
            Some(unit) => Phase::Starting(
                ServiceChange::new(duplicate(unit), Goal::Started, settings.service_poll),
            ),
            None => Phase::Finished,
        };
        (Batch { settings, service, waiting, phase, outcomes }, notices)
    }
}

impl Batch {
    /// Sets up a run of the worker over `projects`, in this order, around
    /// which `service` is stopped and started if there is one. Where there
    /// is none, the run of the first project begins at once and is
    /// reported.
    pub fn new(settings: BatchSettings, service: Option<ServiceSpec>, projects: Vec<
        ProjectConfig,
    >) -> (start: (Batch, Vec<Notice>))
        ensures
            start.0@ == batch_start(settings, service_view(service), config_views(projects@)),
            notice_views(start.1@) == batch_start_notices(
                service_view(service),
                config_views(projects@),
            ),
    {
        match &service {
            Some(unit) => {
                let change = ServiceChange::new(
                    duplicate(unit),
                    Goal::Stopped,
                    settings.service_poll,
                );
                (
                    Batch {
                        settings,
                        service,
                        waiting: projects,
                        phase: Phase::Stopping(change),
                        outcomes: Vec::new(),
                    },
                    Vec::new(),
                )
            },
            None => go_on(settings, service, projects, Vec::new(), Vec::new()),
        }
    }

    /// Tells whether the run of the worker is over.
    pub fn is_over(&self) -> (yes: bool)
        ensures
            yes == self@.over(),
            yes <==> batch_pending(self@) is Finish,
    {
        match &self.phase {
            Phase::Finished => true,
            Phase::Aborted { .. } => true,
            _ => false,
        }
    }

    /// Why the run of the worker was given up, if it was: the state that
    /// the service could not be brought to, and what went wrong.
    pub fn aborted(&self) -> (cause: Option<(Goal, ServiceFailure)>)
        ensures
            match cause {
                Some((goal, failure)) => self@.phase == (PhaseView::Aborted { goal, failure }),
                None => !(self@.phase is Aborted),
            },
    {
        match &self.phase {
            Phase::Aborted { goal, failure } => Some((*goal, *failure)),
            _ => None,
        }
    }

    /// The state in which each project's run ended, in the order of their
    /// turns.
    pub fn outcomes(&self) -> (outcomes: &Vec<Stage>)
        ensures
            outcomes@ == self@.outcomes,
    {
        &self.outcomes
    }

    /// The number of projects whose turn is still to come.
    pub fn waiting(&self) -> (count: usize)
        ensures
            count == self@.waiting.len(),
    {
        self.waiting.len()
    }

    /// What the run of the worker waits for.
    pub fn pending(&self) -> (action: BatchAction)
        ensures
            action@ == batch_pending(self@),
    {
        match &self.phase {
            Phase::Stopping(change) => BatchAction::Service(change.pending()),
            Phase::Starting(change) => BatchAction::Service(change.pending()),
            Phase::Updating(run) => BatchAction::Project(run.pending()),
            Phase::Finished => BatchAction::Finish,
            Phase::Aborted { .. } => BatchAction::Finish,
        }
    }

    /// Moves the run of the worker on by what the caller reports, and
    /// hands back what there is to report of it, in order.
    pub fn observe(self, event: BatchEvent) -> (next: (Batch, Vec<Notice>))
        ensures
            (BatchStepView { next: next.0@, notices: notice_views(next.1@) }) == batch_transition(
                self@,
                event@,
            ),
    {
        let Batch { settings, service, waiting, phase, outcomes } = self;
        match (phase, event) {
            (Phase::Stopping(change), BatchEvent::Service { judgement, now_ms }) => {
                let (change, report) = change.observe(judgement, now_ms);
                let notices = one_notice(None, Vec::new(), report);
                match change.progress() {
                    ServiceProgress::Confirmed => go_on(
                        settings,
                        service,
                        waiting,
                        outcomes,
                        notices,
                    ),
                    ServiceProgress::Failed(failure) => (
                        Batch {
                            settings,
                            service,
                            waiting,
                            phase: Phase::Aborted { goal: Goal::Stopped, failure },
                            outcomes,
                        },
                        notices,
                    ),
                    _ => (
                        Batch { settings, service, waiting, phase: Phase::Stopping(change), outcomes },
                        notices,
                    ),
                }
            },
            (Phase::Starting(change), BatchEvent::Service { judgement, now_ms }) => {
                let (change, report) = change.observe(judgement, now_ms);
                let notices = one_notice(None, Vec::new(), report);
                match change.progress() {
                    ServiceProgress::Confirmed => (
                        Batch { settings, service, waiting, phase: Phase::Finished, outcomes },
                        notices,
                    ),
                    ServiceProgress::Failed(failure) => (
                        Batch {
                            settings,
                            service,
                            waiting,
                            phase: Phase::Aborted { goal: Goal::Started, failure },
                            outcomes,
                        },
                        notices,
                    ),
                    _ => (
                        Batch { settings, service, waiting, phase: Phase::Starting(change), outcomes },
                        notices,
                    ),
                }
            },
            (Phase::Updating(run), BatchEvent::Project(event)) => {
                let name = String::from_str(run.config().name());
                let (run, step) = run.observe(event);
                let notices = one_notice(Some(name), step.entered, step.report);
                if run.is_finished() {
                    let mut outcomes = outcomes;
                    outcomes.push(run.stage());
                    go_on(settings, service, waiting, outcomes, notices)
                } else {
                    (
                        Batch { settings, service, waiting, phase: Phase::Updating(run), outcomes },
                        notices,
                    )
                }
            },
            (phase, _) => (
                Batch { settings, service, waiting, phase, outcomes },
                one_notice(
                    None,
                    Vec::new(),
                    Report {
                        level: LogLevel::Warn,
                        message: String::from_str("Event does not answer what the worker waits for"),
                    },
                ),
            ),
        }
    }
}

} // verus!
