use ci_cd_worker::config::ProjectConfig;
use ci_cd_worker::executor::{classify, CommandOutcome, CommandResult, ExecError};
use ci_cd_worker::pipeline::{
    Action, CommandRequest, CommandStep, Event, FailureKind, PipelineRun, PipelineSettings, Stage,
};
use ci_cd_worker::poller::PollPolicy;
use ci_cd_worker::report::LogLevel;

const UP_TO_DATE: &str = "On branch main\nYour branch is up to date with 'origin/main'.\n";
const BEHIND: &str = "On branch main\nYour branch is behind 'origin/main' by 2 commits.\n";

fn settings(rollback: bool) -> PipelineSettings {
    PipelineSettings {
        lock_poll: PollPolicy { interval_ms: 500, deadline_ms: 5000 },
        rollback_on_build_failure: rollback,
    }
}

fn project(name: &str, source: &str, install: Option<&str>) -> ProjectConfig {
    ProjectConfig::new(name.to_string(), source.to_string(), install.map(str::to_string))
}

fn ok(stdout: &str) -> Event {
    Event::Command(Ok(CommandOutcome::Success(stdout.to_string())))
}

fn failed(diagnostic: &str) -> Event {
    Event::Command(Ok(CommandOutcome::Failure(diagnostic.to_string())))
}

fn exit(command_line: &str, code: i32, stderr: &str) -> Event {
    let result = CommandResult { exit_code: Some(code), stdout: String::new(), stderr: stderr.to_string() };
    Event::Command(classify(command_line, result, &vec![0]))
}

fn request(step: CommandStep, command_line: &str, directory: &str) -> Action {
    Action::Run(CommandRequest {
        step,
        command_line: command_line.to_string(),
        working_directory: directory.to_string(),
        accepted_exit_codes: vec![0],
    })
}

/// What a run did from its first action to its end.
struct Trace {
    actions: Vec<Action>,
    stages: Vec<Stage>,
    levels: Vec<LogLevel>,
    messages: Vec<String>,
    clock_ms: u64,
}

impl Trace {
    fn steps(&self) -> Vec<Option<CommandStep>> {
        self.actions
            .iter()
            .map(|action| match action {
                Action::Run(request) => Some(request.step),
                _ => None,
            })
            .collect()
    }

    fn sentinel_attempts(&self) -> usize {
        self.actions
            .iter()
            .filter(|action| matches!(action, Action::CreateSentinel { .. } | Action::RemoveSentinel { .. }))
            .count()
    }
}

/// Drives `run` to its end. The clock starts at `start_ms` and advances by the pause that each
/// attempt on the sentinel file asks for; `answer` performs each action at the time given.
fn drive(run: PipelineRun, start_ms: u64, mut answer: impl FnMut(&Action, u64) -> Event) -> (PipelineRun, Trace) {
    let mut run = run;
    let mut trace = Trace { actions: vec![], stages: vec![], levels: vec![], messages: vec![], clock_ms: start_ms };
    for _ in 0..1000 {
        let action = run.pending();
        match &action {
            Action::Finish => {
                assert!(run.is_finished());
                return (run, trace);
            }
            Action::CreateSentinel { delay_ms, .. } | Action::RemoveSentinel { delay_ms, .. } => {
                trace.clock_ms += delay_ms;
            }
            Action::Run(_) => {}
        }
        assert!(!run.is_finished());
        let event = answer(&action, trace.clock_ms);
        trace.actions.push(action);
        let (next, step) = run.observe(event);
        run = next;
        trace.stages.extend(step.entered);
        trace.levels.push(step.report.level);
        trace.messages.push(step.report.message);
    }
    panic!("the run does not end");
}

/// Answers every command with success; the status says what `status` says; the sentinel file
/// is created and removed at the first attempt.
fn all_goes_well(status: &'static str) -> impl FnMut(&Action, u64) -> Event {
    move |action, now_ms| match action {
        Action::Run(request) => match request.step {
            CommandStep::Status => ok(status),
            CommandStep::RecordCommit => ok("commit 0123abc\nAuthor: someone\n"),
            _ => ok("done"),
        },
        _ => Event::Sentinel { done: true, now_ms },
    }
}

#[test]
fn a_new_run_is_idle_and_asks_for_the_fetch() {
    let run = PipelineRun::new(project("a", "/srv/src/a", Some("/opt/bin")), settings(false));
    assert_eq!(run.stage(), Stage::Idle);
    assert!(!run.is_finished());
    assert!(!run.holds_lock());
    assert_eq!(run.pending(), request(CommandStep::Fetch, "git fetch --all", "/srv/src/a"));
    assert_eq!(run.config().name(), "a");
}

#[test]
fn project_with_pending_commits_and_install_path_is_installed() {
    let run = PipelineRun::new(project("A", "/srv/src/tool", Some("/opt/bin")), settings(false));
    let (run, trace) = drive(run, 50, all_goes_well(BEHIND));
    assert_eq!(run.stage(), Stage::Done);
    assert_eq!(
        trace.actions,
        vec![
            request(CommandStep::Fetch, "git fetch --all", "/srv/src/tool"),
            request(CommandStep::Status, "git status", "/srv/src/tool"),
            request(CommandStep::Pull, "git pull", "/srv/src/tool"),
            request(CommandStep::Build, "cargo build --release", "/srv/src/tool"),
            Action::CreateSentinel { path: "/opt/bin/A.lock".to_string(), delay_ms: 0 },
            request(CommandStep::Move, "mv target/release/tool /opt/bin/A", "/srv/src/tool"),
            Action::RemoveSentinel { path: "/opt/bin/A.lock".to_string(), delay_ms: 0 },
        ]
    );
    assert_eq!(
        trace.stages,
        vec![
            Stage::Fetched,
            Stage::StatusChecked,
            Stage::PullPending,
            Stage::Pulled,
            Stage::BuildPending,
            Stage::Built,
            Stage::LockHeld,
            Stage::Installed,
            Stage::LockReleased,
            Stage::Done,
        ]
    );
    assert!(trace.stages.iter().all(|stage| !matches!(stage, Stage::Failed(_))));
    assert!(trace.levels.iter().all(|level| *level != LogLevel::Error));
    assert_eq!(trace.levels.last(), Some(&LogLevel::Info));
    assert_eq!(trace.messages.last().map(String::as_str), Some("Project was updated."));
    assert_eq!(trace.clock_ms, 50);
}

#[test]
fn failed_build_fails_the_run_and_takes_no_lock() {
    let run = PipelineRun::new(project("B", "/srv/src/b", Some("/opt/bin")), settings(false));
    let (run, trace) = drive(run, 0, |action, now_ms| match action {
        Action::Run(request) => match request.step {
            CommandStep::Status => ok(BEHIND),
            CommandStep::Build => exit(&request.command_line, 1, "error: could not compile `b`"),
            _ => ok(""),
        },
        _ => Event::Sentinel { done: true, now_ms },
    });
    assert_eq!(run.stage(), Stage::Failed(FailureKind::CommandFailure));
    assert_eq!(
        trace.stages,
        vec![
            Stage::Fetched,
            Stage::StatusChecked,
            Stage::PullPending,
            Stage::Pulled,
            Stage::BuildPending,
            Stage::Failed(FailureKind::CommandFailure),
        ]
    );
    assert_eq!(
        trace.steps(),
        vec![
            Some(CommandStep::Fetch),
            Some(CommandStep::Status),
            Some(CommandStep::Pull),
            Some(CommandStep::Build),
        ]
    );
    assert_eq!(trace.sentinel_attempts(), 0);
    assert_eq!(trace.levels.last(), Some(&LogLevel::Error));
    assert_eq!(
        trace.messages.last().map(String::as_str),
        Some("The command cargo build --release did not finish with expected status code, but with 1.\nstderr was:\nerror: could not compile `b`")
    );
}

#[test]
fn sentinel_that_stays_for_six_seconds_times_out_at_five() {
    let run = PipelineRun::new(project("C", "/srv/src/c", Some("/opt/bin")), settings(false));
    let started = 1_000;
    let mut attempts = vec![];
    let (run, trace) = drive(run, started, |action, now_ms| match action {
        Action::Run(request) => match request.step {
            CommandStep::Status => ok(BEHIND),
            _ => ok(""),
        },
        Action::CreateSentinel { path, .. } => {
            assert_eq!(path, "/opt/bin/C.lock");
            attempts.push(now_ms - started);
            Event::Sentinel { done: now_ms - started >= 6_000, now_ms }
        }
        other => panic!("{other:?}"),
    });
    assert_eq!(run.stage(), Stage::Failed(FailureKind::LockAcquisitionTimeout));
    assert_eq!(attempts, vec![0, 500, 1000, 1500, 2000, 2500, 3000, 3500, 4000, 4500, 5000]);
    assert!(trace.clock_ms - started >= 5_000);
    assert_eq!(trace.stages.last(), Some(&Stage::Failed(FailureKind::LockAcquisitionTimeout)));
    assert!(!trace.steps().contains(&Some(CommandStep::Move)));
    assert_eq!(
        trace.messages.last().map(String::as_str),
        Some("Lock file could not be created for project C: it was still present at the deadline")
    );
    assert_eq!(trace.levels.last(), Some(&LogLevel::Error));
}

#[test]
fn sentinel_that_goes_away_in_time_is_waited_for() {
    let run = PipelineRun::new(project("C", "/srv/src/c", Some("/opt/bin")), settings(false));
    let (run, trace) = drive(run, 0, |action, now_ms| match action {
        Action::Run(request) => match request.step {
            CommandStep::Status => ok(BEHIND),
            _ => ok(""),
        },
        Action::CreateSentinel { .. } => Event::Sentinel { done: now_ms >= 1_700, now_ms },
        Action::RemoveSentinel { .. } => Event::Sentinel { done: true, now_ms },
        Action::Finish => panic!(),
    });
    assert_eq!(run.stage(), Stage::Done);
    assert_eq!(trace.clock_ms, 2_000);
    assert_eq!(trace.sentinel_attempts(), 6);
}

#[test]
fn up_to_date_project_pulls_builds_and_installs_nothing() {
    for install in [None, Some("/opt/bin")] {
        let run = PipelineRun::new(project("docs", "/srv/src/docs", install), settings(true));
        let (run, trace) = drive(run, 0, all_goes_well(UP_TO_DATE));
        assert_eq!(run.stage(), Stage::Done);
        assert_eq!(trace.steps(), vec![Some(CommandStep::Fetch), Some(CommandStep::Status)]);
        assert_eq!(trace.stages, vec![Stage::Fetched, Stage::StatusChecked, Stage::UpToDate, Stage::Done]);
        assert_eq!(trace.levels.last(), Some(&LogLevel::Info));
        assert_eq!(trace.messages.last().map(String::as_str), Some("Nothing to pull for project."));
    }
}

#[test]
fn project_without_install_path_only_syncs() {
    let run = PipelineRun::new(project("docs", "relative/docs", None), settings(false));
    let (run, trace) = drive(run, 0, all_goes_well(BEHIND));
    assert_eq!(run.stage(), Stage::Done);
    assert_eq!(
        trace.steps(),
        vec![Some(CommandStep::Fetch), Some(CommandStep::Status), Some(CommandStep::Pull)]
    );
    assert_eq!(
        trace.stages,
        vec![
            Stage::Fetched,
            Stage::StatusChecked,
            Stage::PullPending,
            Stage::Pulled,
            Stage::NoBuildRequested,
            Stage::Done,
        ]
    );
    assert_eq!(trace.sentinel_attempts(), 0);
}

#[test]
fn project_without_install_path_does_not_install_when_the_pull_fails() {
    let run = PipelineRun::new(project("docs", "/srv/src/docs", None), settings(false));
    let (run, trace) = drive(run, 0, |action, now_ms| match action {
        Action::Run(request) => match request.step {
            CommandStep::Status => ok(BEHIND),
            CommandStep::Pull => failed("merge conflict"),
            _ => ok(""),
        },
        _ => Event::Sentinel { done: true, now_ms },
    });
    assert_eq!(run.stage(), Stage::Failed(FailureKind::CommandFailure));
    assert_eq!(trace.sentinel_attempts(), 0);
    assert!(!trace.steps().contains(&Some(CommandStep::Build)));
    assert!(!trace.steps().contains(&Some(CommandStep::Move)));
    assert_eq!(trace.messages.last().map(String::as_str), Some("merge conflict"));
}

#[test]
fn each_command_that_fails_ends_the_run_where_it_stands() {
    for (failing, last_before) in [
        (CommandStep::Fetch, Stage::Idle),
        (CommandStep::Status, Stage::Fetched),
        (CommandStep::Pull, Stage::PullPending),
        (CommandStep::Build, Stage::BuildPending),
    ] {
        let run = PipelineRun::new(project("a", "/srv/src/a", Some("/opt/bin")), settings(false));
        let (run, trace) = drive(run, 0, |action, now_ms| match action {
            Action::Run(request) if request.step == failing => {
                Event::Command(Err(ExecError::ExecutionError("cannot spawn".to_string())))
            }
            Action::Run(request) if request.step == CommandStep::Status => ok(BEHIND),
            Action::Run(_) => ok(""),
            _ => Event::Sentinel { done: true, now_ms },
        });
        assert_eq!(run.stage(), Stage::Failed(FailureKind::CommandFailure));
        assert_eq!(trace.steps().last(), Some(&Some(failing)));
        assert_eq!(trace.stages.last(), Some(&Stage::Failed(FailureKind::CommandFailure)));
        let before = if trace.stages.len() >= 2 { trace.stages[trace.stages.len() - 2] } else { Stage::Idle };
        assert_eq!(before, last_before);
        assert_eq!(trace.messages.last().map(String::as_str), Some("cannot spawn"));
        assert_eq!(trace.sentinel_attempts(), 0);
    }
}

#[test]
fn failed_move_still_releases_the_lock() {
    let run = PipelineRun::new(project("a", "/srv/src/a", Some("/opt/bin")), settings(false));
    let (run, trace) = drive(run, 0, |action, now_ms| match action {
        Action::Run(request) => match request.step {
            CommandStep::Status => ok(BEHIND),
            CommandStep::Move => failed("mv: cannot stat"),
            _ => ok(""),
        },
        _ => Event::Sentinel { done: true, now_ms },
    });
    assert_eq!(run.stage(), Stage::Failed(FailureKind::CommandFailure));
    assert!(!run.holds_lock());
    let n = trace.actions.len();
    assert_eq!(trace.actions[n - 2], request(CommandStep::Move, "mv target/release/a /opt/bin/a", "/srv/src/a"));
    assert_eq!(trace.actions[n - 1], Action::RemoveSentinel { path: "/opt/bin/a.lock".to_string(), delay_ms: 0 });
    assert_eq!(trace.stages.last(), Some(&Stage::Failed(FailureKind::CommandFailure)));
    assert_eq!(trace.stages.iter().filter(|stage| matches!(stage, Stage::Failed(_))).count(), 1);
    assert_eq!(trace.messages[n - 2], "mv: cannot stat");
    assert_eq!(trace.messages[n - 1], "Lock released after the failed move");
}

#[test]
fn the_run_holds_the_lock_from_its_creation_to_its_removal() {
    let mut run = PipelineRun::new(project("a", "/srv/src/a", Some("/opt/bin")), settings(false));
    for event in [ok(""), ok(BEHIND), ok(""), ok("")] {
        assert!(!run.holds_lock());
        run = run.observe(event).0;
    }
    assert_eq!(run.stage(), Stage::Built);
    assert!(!run.holds_lock());
    run = run.observe(Event::Sentinel { done: false, now_ms: 5 }).0;
    assert!(!run.holds_lock());
    run = run.observe(Event::Sentinel { done: true, now_ms: 505 }).0;
    assert_eq!(run.stage(), Stage::LockHeld);
    assert!(run.holds_lock());
    run = run.observe(ok("")).0;
    assert_eq!(run.stage(), Stage::Installed);
    assert!(run.holds_lock());
    run = run.observe(Event::Sentinel { done: false, now_ms: 600 }).0;
    assert!(run.holds_lock());
    assert_eq!(run.pending(), Action::RemoveSentinel { path: "/opt/bin/a.lock".to_string(), delay_ms: 500 });
    run = run.observe(Event::Sentinel { done: true, now_ms: 1100 }).0;
    assert_eq!(run.stage(), Stage::Done);
    assert!(!run.holds_lock());
}

#[test]
fn lock_that_cannot_be_released_fails_the_run_after_the_installation() {
    let run = PipelineRun::new(project("a", "/srv/src/a", Some("/opt/bin")), settings(false));
    let mut removals = vec![];
    let (run, trace) = drive(run, 300, |action, now_ms| match action {
        Action::Run(request) => match request.step {
            CommandStep::Status => ok(BEHIND),
            _ => ok(""),
        },
        Action::CreateSentinel { .. } => Event::Sentinel { done: true, now_ms },
        Action::RemoveSentinel { .. } => {
            removals.push(now_ms);
            Event::Sentinel { done: false, now_ms }
        }
        Action::Finish => panic!(),
    });
    assert_eq!(run.stage(), Stage::Failed(FailureKind::LockReleaseTimeout));
    assert_eq!(removals.len(), 11);
    assert_eq!(removals.last().unwrap() - removals[0], 5_000);
    assert!(trace.stages.contains(&Stage::Installed));
    assert_eq!(trace.stages.last(), Some(&Stage::Failed(FailureKind::LockReleaseTimeout)));
    assert_eq!(trace.levels.last(), Some(&LogLevel::Error));
    assert_eq!(
        trace.messages.last().map(String::as_str),
        Some("Lock file could not be released for project a before the deadline")
    );
}

#[test]
fn lock_that_cannot_be_released_after_a_failed_move_is_reported_as_an_error() {
    let run = PipelineRun::new(project("a", "/srv/src/a", Some("/opt/bin")), settings(false));
    let (run, trace) = drive(run, 0, |action, now_ms| match action {
        Action::Run(request) => match request.step {
            CommandStep::Status => ok(BEHIND),
            CommandStep::Move => failed("mv: cannot stat"),
            _ => ok(""),
        },
        Action::CreateSentinel { .. } => Event::Sentinel { done: true, now_ms },
        _ => Event::Sentinel { done: false, now_ms },
    });
    assert_eq!(run.stage(), Stage::Failed(FailureKind::CommandFailure));
    assert_eq!(trace.levels.last(), Some(&LogLevel::Error));
    assert_eq!(
        trace.messages.last().map(String::as_str),
        Some("Lock file could not be released for project a before the deadline")
    );
    assert_eq!(trace.clock_ms, 5_000);
}

#[test]
fn source_path_that_names_no_binary_is_a_structural_error_after_the_pull() {
    for source in ["src/a", "/", "a", ""] {
        let run = PipelineRun::new(project("a", source, Some("/opt/bin")), settings(false));
        let (run, trace) = drive(run, 0, all_goes_well(BEHIND));
        assert_eq!(run.stage(), Stage::Failed(FailureKind::StructuralConfigError), "{source:?}");
        assert_eq!(
            trace.steps(),
            vec![Some(CommandStep::Fetch), Some(CommandStep::Status), Some(CommandStep::Pull)]
        );
        assert_eq!(
            trace.messages.last().map(String::as_str),
            Some("Source path of project a is not an absolute path below the root")
        );
        assert_eq!(trace.levels.last(), Some(&LogLevel::Error));
    }
}

#[test]
fn rollback_resets_to_the_commit_recorded_before_the_pull() {
    let run = PipelineRun::new(project("a", "/srv/src/a", Some("/opt/bin")), settings(true));
    let (run, trace) = drive(run, 0, |action, now_ms| match action {
        Action::Run(request) => match request.step {
            CommandStep::Status => ok(BEHIND),
            CommandStep::RecordCommit => ok("commit 0123abc (HEAD -> main)\nAuthor: someone\n"),
            CommandStep::Build => failed("build broke"),
            _ => ok(""),
        },
        _ => Event::Sentinel { done: true, now_ms },
    });
    assert_eq!(run.stage(), Stage::Failed(FailureKind::CommandFailure));
    assert_eq!(
        trace.actions,
        vec![
            request(CommandStep::Fetch, "git fetch --all", "/srv/src/a"),
            request(CommandStep::Status, "git status", "/srv/src/a"),
            request(CommandStep::RecordCommit, "git log", "/srv/src/a"),
            request(CommandStep::Pull, "git pull", "/srv/src/a"),
            request(CommandStep::Build, "cargo build --release", "/srv/src/a"),
            request(CommandStep::Rollback, "git reset --hard 0123abc", "/srv/src/a"),
        ]
    );
    assert_eq!(trace.messages[2], "Current commit is 0123abc");
    assert_eq!(trace.messages[4], "build broke");
    assert_eq!(trace.stages.iter().filter(|stage| matches!(stage, Stage::Failed(_))).count(), 1);
}

#[test]
fn without_the_rollback_setting_no_commit_is_recorded_and_nothing_is_reset() {
    let run = PipelineRun::new(project("a", "/srv/src/a", Some("/opt/bin")), settings(false));
    let (_, trace) = drive(run, 0, |action, now_ms| match action {
        Action::Run(request) => match request.step {
            CommandStep::Status => ok(BEHIND),
            CommandStep::Build => failed("build broke"),
            _ => ok(""),
        },
        _ => Event::Sentinel { done: true, now_ms },
    });
    assert!(!trace.steps().contains(&Some(CommandStep::RecordCommit)));
    assert!(!trace.steps().contains(&Some(CommandStep::Rollback)));
}

#[test]
fn a_commit_that_cannot_be_recorded_fails_the_run_before_the_pull() {
    let run = PipelineRun::new(project("a", "/srv/src/a", Some("/opt/bin")), settings(true));
    let (run, trace) = drive(run, 0, |action, now_ms| match action {
        Action::Run(request) => match request.step {
            CommandStep::Status => ok(BEHIND),
            CommandStep::RecordCommit => failed("fatal: bad revision"),
            _ => ok(""),
        },
        _ => Event::Sentinel { done: true, now_ms },
    });
    assert_eq!(run.stage(), Stage::Failed(FailureKind::CommandFailure));
    assert!(!trace.steps().contains(&Some(CommandStep::Pull)));
}

#[test]
fn an_event_that_answers_nothing_changes_nothing() {
    let run = PipelineRun::new(project("a", "/srv/src/a", Some("/opt/bin")), settings(false));
    let (run, step) = run.observe(Event::Sentinel { done: true, now_ms: 0 });
    assert_eq!(run.stage(), Stage::Idle);
    assert_eq!(step.entered, vec![]);
    assert_eq!(step.report.level, LogLevel::Warn);
    assert_eq!(run.pending(), request(CommandStep::Fetch, "git fetch --all", "/srv/src/a"));

    let (run, _) = drive(run, 0, all_goes_well(UP_TO_DATE));
    let (run, step) = run.observe(ok("late"));
    assert_eq!(run.stage(), Stage::Done);
    assert_eq!(step.entered, vec![]);
    assert_eq!(run.pending(), Action::Finish);
}

#[test]
fn reports_carry_the_output_of_each_command() {
    let run = PipelineRun::new(project("a", "/srv/src/a", Some("/opt/bin")), settings(false));
    let (_, trace) = drive(run, 0, |action, now_ms| match action {
        Action::Run(request) => match request.step {
            CommandStep::Status => ok(BEHIND),
            _ => ok("out"),
        },
        _ => Event::Sentinel { done: true, now_ms },
    });
    assert_eq!(
        trace.messages,
        vec![
            "git fetch output:\nout".to_string(),
            format!("git status output:\n{BEHIND}"),
            "git pull output:\nout".to_string(),
            "cargo build output:\nout".to_string(),
            "Lock acquired: /opt/bin/a.lock".to_string(),
            "move operation output:\nout".to_string(),
            "Project was updated.".to_string(),
        ]
    );
    assert_eq!(
        trace.levels,
        vec![
            LogLevel::Debug,
            LogLevel::Debug,
            LogLevel::Debug,
            LogLevel::Debug,
            LogLevel::Debug,
            LogLevel::Debug,
            LogLevel::Info,
        ]
    );
}
