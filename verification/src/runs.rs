//! What holds of every run of a project's pipeline, and of every run of
//! the worker over all its projects, whatever the commands and the file
//! system answer.

use crate::batch::{
    batch_pending, batch_start, batch_transition, fresh_run, BatchActionView, BatchEventView,
    BatchSettings, BatchView, PhaseView,
};
use crate::config::ProjectConfigView;
use crate::executor::{CommandOutcomeView, ExecErrorView};
use crate::git::up_to_date_marker;
use crate::pipeline::{
    end_of, legal_path, pending, transition, ActionView, CommandStep, EventView, FailureKind,
    PipelineSettings, ProgressView, RunView, Stage,
};
use crate::poller::elapsed_since;
use crate::report::LogLevel;
use crate::service::{Goal, ServiceSpecView};
use crate::text::contains_text;
use vstd::prelude::*;

verus! {

/// How far a run that stood at `start` has come once it has observed
/// `events`, in order.
pub open spec fn progress_after(
    config: ProjectConfigView,
    settings: PipelineSettings,
    start: ProgressView,
    events: Seq<EventView>,
) -> ProgressView
    decreases events.len(),
{
    if events.len() == 0 {
        start
    } else {
        transition(
            config,
            settings,
            progress_after(config, settings, start, events.drop_last()),
            events.last(),
        ).next
    }
}

/// The action is part of an installation: the build, an attempt on the
/// sentinel file, or the move.
pub open spec fn installs(action: ActionView) -> bool {
    match action {
        ActionView::Run(request) => request.step is Build || request.step is Move,
        ActionView::CreateSentinel { .. } => true,
        ActionView::RemoveSentinel { .. } => true,
        ActionView::Finish => false,
    }
}

/// The action is the command `step`.
pub open spec fn asks_for(action: ActionView, step: CommandStep) -> bool {
    action matches ActionView::Run(request) && request.step == step
}

/// Every observation takes the run along the transitions of the state
/// machine and along no others: the states it enters form a path from the
/// state it was in, and it ends up in the last of them.
pub proof fn lemma_transitions_are_legal(
    config: ProjectConfigView,
    settings: PipelineSettings,
    progress: ProgressView,
    event: EventView,
)
    ensures
        legal_path(progress.stage(), transition(config, settings, progress, event).entered),
        transition(config, settings, progress, event).next.stage() == end_of(
            progress.stage(),
            transition(config, settings, progress, event).entered,
        ),
{
}

/// A run that is over stays as it is and asks for nothing more, whatever
/// it is told.
pub proof fn lemma_finished_is_final(
    config: ProjectConfigView,
    settings: PipelineSettings,
    progress: ProgressView,
    events: Seq<EventView>,
)
    requires
        progress.finished(),
    ensures
        progress_after(config, settings, progress, events) == progress,
        pending(config, settings, progress_after(config, settings, progress, events)) is Finish,
    decreases events.len(),
{
    if events.len() > 0 {
        lemma_finished_is_final(config, settings, progress, events.drop_last());
    }
}

/// A project whose status says that it is up to date is done with that:
/// the run ends there, as a success told at the level of information, and
/// whatever is observed later it asks for no pull, no build and no
/// installation, and for nothing else.
pub proof fn lemma_up_to_date_ends_the_run(
    config: ProjectConfigView,
    settings: PipelineSettings,
    stdout: Seq<char>,
    later: Seq<EventView>,
)
    requires
        contains_text(stdout, up_to_date_marker()),
    ensures
        ({
            let step = transition(
                config,
                settings,
                ProgressView::Fetched,
                EventView::Command(Ok(CommandOutcomeView::Success(stdout))),
            );
            &&& step.next is Done
            &&& step.entered == seq![Stage::StatusChecked, Stage::UpToDate, Stage::Done]
            &&& step.report.level == LogLevel::Info
            &&& progress_after(config, settings, step.next, later) is Done
            &&& pending(config, settings, progress_after(config, settings, step.next, later))
                is Finish
        }),
{
    lemma_finished_is_final(config, settings, ProgressView::Done, later);
}

/// The run is at a place that a project without an install path can come
/// to.
pub open spec fn sync_only(progress: ProgressView) -> bool {
    progress is Idle || progress is Fetched || progress is PullPending || progress is Done
        || progress is Failed
}

/// A project for which no install path is configured never builds, never
/// tries for the lock and never moves anything, however its commands end.
pub proof fn lemma_no_install_path_no_installation(
    config: ProjectConfigView,
    settings: PipelineSettings,
    events: Seq<EventView>,
)
    requires
        !config.requests_install(),
    ensures
        sync_only(progress_after(config, settings, ProgressView::Idle, events)),
        !installs(
            pending(config, settings, progress_after(config, settings, ProgressView::Idle, events)),
        ),
        !progress_after(config, settings, ProgressView::Idle, events).holds_lock(),
    decreases events.len(),
{
    if events.len() > 0 {
        lemma_no_install_path_no_installation(config, settings, events.drop_last());
    }
}

/// A run holds the lock on no file but its project's lock file.
pub open spec fn lock_is_own(config: ProjectConfigView, progress: ProgressView) -> bool {
    match progress {
        ProgressView::LockHeld { handle } => handle == config.lock_path(),
        ProgressView::Installed { handle, .. } => handle == config.lock_path(),
        ProgressView::Abandoning { handle, .. } => handle == config.lock_path(),
        _ => true,
    }
}

/// Whatever a run holds a lock on is the lock file of its project.
pub proof fn lemma_lock_is_own(
    config: ProjectConfigView,
    settings: PipelineSettings,
    events: Seq<EventView>,
)
    ensures
        lock_is_own(config, progress_after(config, settings, ProgressView::Idle, events)),
    decreases events.len(),
{
    if events.len() > 0 {
        lemma_lock_is_own(config, settings, events.drop_last());
    }
}

/// After an attempt to install, the release of the lock is attempted:
/// whether the move succeeded or failed, could be run or not, the next
/// thing the run asks for is the removal, without a pause, of the sentinel
/// file that it created. Until the move is answered the run asks for the
/// move.
pub proof fn lemma_release_follows_move(
    config: ProjectConfigView,
    settings: PipelineSettings,
    events: Seq<EventView>,
    event: EventView,
)
    requires
        progress_after(config, settings, ProgressView::Idle, events) is LockHeld,
    ensures
        ({
            let before = progress_after(config, settings, ProgressView::Idle, events);
            let after = transition(config, settings, before, event).next;
            &&& asks_for(pending(config, settings, before), CommandStep::Move)
            &&& event is Command ==> pending(config, settings, after)
                == (ActionView::RemoveSentinel { path: config.lock_path(), delay_ms: 0 })
            &&& !(event is Command) ==> after == before
        }),
{
    lemma_lock_is_own(config, settings, events);
}

/// A run lets go of the lock before it ends, or gives it up at the
/// deadline: while it holds the lock it asks for the move or for the
/// removal of the sentinel file, and once it is over it holds no lock.
pub proof fn lemma_no_lock_is_forgotten(
    config: ProjectConfigView,
    settings: PipelineSettings,
    progress: ProgressView,
)
    ensures
        progress.holds_lock() ==> asks_for(pending(config, settings, progress), CommandStep::Move)
            || pending(config, settings, progress) is RemoveSentinel,
        progress.finished() ==> !progress.holds_lock(),
{
}

/// The lock is given up only at or after the deadline, counted from the
/// first attempt on the sentinel file, and only when the attempt failed:
/// no run fails by a timeout of the lock before its time.
pub proof fn lemma_lock_timeout_not_early(
    config: ProjectConfigView,
    settings: PipelineSettings,
    progress: ProgressView,
    done: bool,
    now_ms: u64,
)
    requires
        !progress.finished(),
        transition(config, settings, progress, EventView::Sentinel { done, now_ms }).next.stage()
            == Stage::Failed(FailureKind::LockAcquisitionTimeout) || transition(
            config,
            settings,
            progress,
            EventView::Sentinel { done, now_ms },
        ).next.stage() == Stage::Failed(FailureKind::LockReleaseTimeout),
    ensures
        !done,
        match progress {
            ProgressView::Built { origin } => elapsed_since(origin, now_ms)
                >= settings.lock_poll.deadline_ms,
            ProgressView::Installed { origin, .. } => elapsed_since(origin, now_ms)
                >= settings.lock_poll.deadline_ms,
            _ => false,
        },
{
}

/// The pause that an action asks for before an attempt on the sentinel
/// file, none for every other action.
pub open spec fn pause_before(action: ActionView) -> u64 {
    match action {
        ActionView::CreateSentinel { delay_ms, .. } => delay_ms,
        ActionView::RemoveSentinel { delay_ms, .. } => delay_ms,
        _ => 0,
    }
}

/// The attempts on the sentinel file are paced by the poll policy: a run
/// that comes to a new state asks for what is due there without a pause,
/// and after an attempt on the sentinel file made in vain the next one is
/// asked for after a pause of one interval.
pub proof fn lemma_sentinel_attempts_are_paced(
    config: ProjectConfigView,
    settings: PipelineSettings,
    progress: ProgressView,
    event: EventView,
)
    ensures
        ({
            let next = transition(config, settings, progress, event).next;
            let asked = pending(config, settings, next);
            &&& next.stage() != progress.stage() ==> pause_before(asked) == 0
            &&& event is Sentinel && (asked is CreateSentinel || asked is RemoveSentinel)
                ==> pause_before(asked) == settings.lock_poll.interval_ms
        }),
{
}

/// No lock is tried for before the build has succeeded: a run that asks
/// for the sentinel file to be created has just left the build behind, and
/// a build that fails leads to no attempt on the lock.
pub proof fn lemma_failed_build_takes_no_lock(
    config: ProjectConfigView,
    settings: PipelineSettings,
    prior_commit: Option<Seq<char>>,
    judgement: Result<CommandOutcomeView, ExecErrorView>,
    later: Seq<EventView>,
)
    requires
        !(judgement matches Ok(CommandOutcomeView::Success(_))),
    ensures
        ({
            let step = transition(
                config,
                settings,
                ProgressView::BuildPending { prior_commit },
                EventView::Command(judgement),
            );
            let end = progress_after(config, settings, step.next, later);
            &&& step.entered == seq![Stage::Failed(FailureKind::CommandFailure)]
            &&& end.stage() == Stage::Failed(FailureKind::CommandFailure)
            &&& !end.holds_lock()
            &&& !installs(pending(config, settings, end))
        }),
    decreases later.len(),
{
    if later.len() > 0 {
        lemma_failed_build_takes_no_lock(
            config,
            settings,
            prior_commit,
            judgement,
            later.drop_last(),
        );
    }
}

/// Where a run of the worker that stood at `start` stands once it has
/// observed `events`, in order.
pub open spec fn batch_after(start: BatchView, events: Seq<BatchEventView>) -> BatchView
    decreases events.len(),
{
    if events.len() == 0 {
        start
    } else {
        batch_transition(batch_after(start, events.drop_last()), events.last()).next
    }
}

/// What holds of a run of the worker over `projects` at every moment. No
/// project is lost or takes two turns, and the turns go in the order of
/// `projects`: those that had their turn, then the one that has it, then
/// those that wait. While the service is being stopped no project has been
/// touched; and the service is started again, and the run ended, only
/// after the last project has had its turn.
pub open spec fn in_order(batch: BatchView, projects: Seq<ProjectConfigView>) -> bool {
    &&& batch.projects() == projects.len()
    &&& batch.waiting == projects.skip(projects.len() - batch.waiting.len())
    &&& match batch.phase {
        PhaseView::Stopping(_) => batch.outcomes.len() == 0,
        PhaseView::Updating(run) => {
            &&& run.config == projects[batch.outcomes.len() as int]
            &&& run.settings == batch.settings.pipeline
        },
        PhaseView::Starting(_) => batch.waiting.len() == 0,
        PhaseView::Finished => batch.waiting.len() == 0,
        PhaseView::Aborted { goal, .. } => match goal {
            Goal::Stopped => batch.outcomes.len() == 0,
            Goal::Started => batch.waiting.len() == 0,
        },
    }
}

/// One observation keeps a run of the worker in order.
pub proof fn lemma_observation_keeps_order(
    before: BatchView,
    event: BatchEventView,
    projects: Seq<ProjectConfigView>,
)
    requires
        in_order(before, projects),
    ensures
        in_order(batch_transition(before, event).next, projects),
{
    let after = batch_transition(before, event).next;
    assert(after.waiting =~= projects.skip(projects.len() - after.waiting.len()));
}

/// A run of the worker is in order from its start on, whatever it
/// observes.
pub proof fn lemma_always_in_order(
    settings: BatchSettings,
    service: Option<ServiceSpecView>,
    projects: Seq<ProjectConfigView>,
    events: Seq<BatchEventView>,
)
    ensures
        in_order(batch_after(batch_start(settings, service, projects), events), projects),
    decreases events.len(),
{
    if events.len() > 0 {
        lemma_always_in_order(settings, service, projects, events.drop_last());
        lemma_observation_keeps_order(
            batch_after(batch_start(settings, service, projects), events.drop_last()),
            events.last(),
            projects,
        );
    } else {
        let start = batch_start(settings, service, projects);
        assert(start.waiting =~= projects.skip(projects.len() - start.waiting.len()));
    }
}

/// A run of the worker that comes to its end without being given up has
/// run every project to its end, those that failed like those that
/// succeeded: there is one outcome for each.
pub proof fn lemma_every_project_has_its_turn(
    settings: BatchSettings,
    service: Option<ServiceSpecView>,
    projects: Seq<ProjectConfigView>,
    events: Seq<BatchEventView>,
)
    requires
        batch_after(batch_start(settings, service, projects), events).phase is Finished,
    ensures
        batch_after(batch_start(settings, service, projects), events).outcomes.len()
            == projects.len(),
{
    lemma_always_in_order(settings, service, projects, events);
}

/// The failure of one project does not end the run of the worker: when the
/// run of a project ends, in whatever state, its outcome is noted and the
/// next project in line starts from the beginning.
pub proof fn lemma_failure_does_not_stop_the_others(
    before: BatchView,
    run: RunView,
    event: EventView,
)
    requires
        before.phase == PhaseView::Updating(run),
        before.waiting.len() > 0,
        transition(run.config, run.settings, run.progress, event).next.finished(),
    ensures
        ({
            let step = batch_transition(before, BatchEventView::Project(event));
            let ended = transition(run.config, run.settings, run.progress, event).next;
            &&& step.next.phase == PhaseView::Updating(
                fresh_run(before.settings, before.waiting[0]),
            )
            &&& step.next.waiting == before.waiting.skip(1)
            &&& step.next.outcomes == before.outcomes.push(ended.stage())
            &&& batch_pending(step.next) == BatchActionView::Project(
                pending(before.waiting[0], before.settings.pipeline, ProgressView::Idle),
            )
        }),
{
}

/// Where the service cannot be stopped, or cannot be shown to have
/// stopped, the run of the worker is given up before any project is
/// touched: no project has an outcome and all of them are still waiting.
pub proof fn lemma_no_project_is_touched_unless_the_service_stopped(
    settings: BatchSettings,
    service: Option<ServiceSpecView>,
    projects: Seq<ProjectConfigView>,
    events: Seq<BatchEventView>,
)
    requires
        batch_after(batch_start(settings, service, projects), events).phase is Stopping
            || batch_after(batch_start(settings, service, projects), events).phase
            matches PhaseView::Aborted { goal: Goal::Stopped, .. },
    ensures
        batch_after(batch_start(settings, service, projects), events).outcomes.len() == 0,
        batch_after(batch_start(settings, service, projects), events).waiting.len()
            == projects.len(),
        !(batch_pending(batch_after(batch_start(settings, service, projects), events))
            is Project),
{
    lemma_always_in_order(settings, service, projects, events);
}

/// A run of the worker that is over stays as it is and asks for nothing
/// more.
pub proof fn lemma_over_is_final(start: BatchView, events: Seq<BatchEventView>)
    requires
        start.over(),
    ensures
        batch_after(start, events) == start,
        batch_pending(batch_after(start, events)) is Finish,
    decreases events.len(),
{
    if events.len() > 0 {
        lemma_over_is_final(start, events.drop_last());
    }
}

} // verus!
