use ci_cd_worker::batch::{Batch, BatchAction, BatchEvent, BatchSettings, Notice};
use ci_cd_worker::config::ProjectConfig;
use ci_cd_worker::executor::{CommandOutcome, ExecError};
use ci_cd_worker::pipeline::{Action, CommandStep, Event, FailureKind, PipelineSettings, Stage};
use ci_cd_worker::poller::PollPolicy;
use ci_cd_worker::report::{LogLevel, Report};
use ci_cd_worker::service::{Goal, ServiceAction, ServiceFailure, ServiceSpec};

const UP_TO_DATE: &str = "Your branch is up to date with 'origin/main'.";
const BEHIND: &str = "Your branch is behind 'origin/main' by 1 commit.";

fn settings() -> BatchSettings {
    BatchSettings {
        pipeline: PipelineSettings {
            lock_poll: PollPolicy { interval_ms: 500, deadline_ms: 5000 },
            rollback_on_build_failure: false,
        },
        service_poll: PollPolicy { interval_ms: 500, deadline_ms: 5000 },
    }
}

fn project(name: &str, install: Option<&str>) -> ProjectConfig {
    ProjectConfig::new(name.to_string(), format!("/srv/src/{name}"), install.map(str::to_string))
}

fn ok(stdout: &str) -> Result<CommandOutcome, ExecError> {
    Ok(CommandOutcome::Success(stdout.to_string()))
}

/// What a run of the worker asked for and said, from its start to its end.
struct Record {
    commands: Vec<String>,
    notices: Vec<Notice>,
}

/// Drives `batch` to its end. Commands are answered by `answer`, which is given the working
/// directory and the command line; the sentinel file is always created and removed at once.
fn drive(start: (Batch, Vec<Notice>), mut answer: impl FnMut(&str, &str) -> Result<CommandOutcome, ExecError>) -> (Batch, Record) {
    let (mut batch, notices) = start;
    let mut record = Record { commands: vec![], notices };
    let mut now_ms = 0;
    for _ in 0..10_000 {
        let event = match batch.pending() {
            BatchAction::Finish => {
                assert!(batch.is_over());
                return (batch, record);
            }
            BatchAction::Service(ServiceAction::Run { command_line, working_directory, delay_ms, .. }) => {
                now_ms += delay_ms;
                record.commands.push(command_line.clone());
                BatchEvent::Service { judgement: answer(&working_directory, &command_line), now_ms }
            }
            BatchAction::Service(ServiceAction::Finish) => panic!("a finished change is waited for"),
            BatchAction::Project(Action::Run(request)) => {
                record.commands.push(format!("{}: {}", request.working_directory, request.command_line));
                BatchEvent::Project(Event::Command(answer(&request.working_directory, &request.command_line)))
            }
            BatchAction::Project(Action::CreateSentinel { path, delay_ms }) => {
                now_ms += delay_ms;
                record.commands.push(format!("create {path}"));
                BatchEvent::Project(Event::Sentinel { done: true, now_ms })
            }
            BatchAction::Project(Action::RemoveSentinel { path, delay_ms }) => {
                now_ms += delay_ms;
                record.commands.push(format!("remove {path}"));
                BatchEvent::Project(Event::Sentinel { done: true, now_ms })
            }
            BatchAction::Project(Action::Finish) => panic!("a finished run is waited for"),
        };
        assert!(!batch.is_over());
        let (next, notices) = batch.observe(event);
        batch = next;
        assert!(!notices.is_empty());
        record.notices.extend(notices);
    }
    panic!("the run of the worker does not end");
}

#[test]
fn systemd_describes_a_unit() {
    assert_eq!(
        ServiceSpec::systemd("cron"),
        ServiceSpec {
            stop_command: "systemctl stop cron".to_string(),
            start_command: "systemctl start cron".to_string(),
            status_command: "systemctl status cron".to_string(),
            inactive_marker: "inactive (dead)".to_string(),
            running_marker: "active (running)".to_string(),
            working_directory: "/".to_string(),
        }
    );
}

#[test]
fn a_batch_without_projects_or_service_is_over_at_once() {
    let (batch, notices) = Batch::new(settings(), None, vec![]);
    assert_eq!(notices, vec![]);
    assert!(batch.is_over());
    assert_eq!(batch.pending(), BatchAction::Finish);
    assert_eq!(batch.aborted(), None);
    assert_eq!(batch.outcomes(), &Vec::<Stage>::new());
}

#[test]
fn every_project_has_its_turn_in_the_order_given() {
    let batch = Batch::new(
        settings(),
        None,
        vec![project("one", None), project("two", Some("/opt/bin")), project("three", None)],
    );
    assert_eq!(batch.0.waiting(), 2);
    let (batch, record) = drive(batch, |directory, command_line| match (directory, command_line) {
        ("/srv/src/one", "git status") => ok(UP_TO_DATE),
        (_, "git status") => ok(BEHIND),
        _ => ok(""),
    });
    assert_eq!(batch.aborted(), None);
    assert_eq!(batch.outcomes(), &vec![Stage::Done, Stage::Done, Stage::Done]);
    assert_eq!(
        record.commands,
        vec![
            "/srv/src/one: git fetch --all",
            "/srv/src/one: git status",
            "/srv/src/two: git fetch --all",
            "/srv/src/two: git status",
            "/srv/src/two: git pull",
            "/srv/src/two: cargo build --release",
            "create /opt/bin/two.lock",
            "/srv/src/two: mv target/release/two /opt/bin/two",
            "remove /opt/bin/two.lock",
            "/srv/src/three: git fetch --all",
            "/srv/src/three: git status",
            "/srv/src/three: git pull",
        ]
    );
    let about: Vec<&str> = record.notices.iter().map(|notice| notice.project.as_deref().unwrap()).collect();
    assert_eq!(
        about,
        vec![
            "one", "one", "one", "two", "two", "two", "two", "two", "two", "two", "two", "three", "three", "three",
            "three",
        ]
    );
    let opening = Report { level: LogLevel::Debug, message: "Beginning update for project.".to_string() };
    for first in [0, 3, 11] {
        assert_eq!(record.notices[first].report, opening);
        assert_eq!(record.notices[first].entered, vec![]);
    }
    assert_eq!(record.notices.iter().filter(|notice| notice.report == opening).count(), 3);
    assert_eq!(record.notices[2].entered, vec![Stage::StatusChecked, Stage::UpToDate, Stage::Done]);
}

#[test]
fn a_project_that_fails_does_not_keep_the_others_from_their_turn() {
    let batch = Batch::new(
        settings(),
        None,
        vec![project("one", None), project("two", Some("/opt/bin")), project("three", None)],
    );
    let (batch, record) = drive(batch, |directory, command_line| match (directory, command_line) {
        ("/srv/src/one", "git fetch --all") => Err(ExecError::ExecutionError("no such directory".to_string())),
        ("/srv/src/two", "cargo build --release") => Ok(CommandOutcome::Failure("build broke".to_string())),
        (_, "git status") => ok(BEHIND),
        _ => ok(""),
    });
    assert_eq!(batch.aborted(), None);
    assert_eq!(
        batch.outcomes(),
        &vec![
            Stage::Failed(FailureKind::CommandFailure),
            Stage::Failed(FailureKind::CommandFailure),
            Stage::Done,
        ]
    );
    assert_eq!(
        record.commands,
        vec![
            "/srv/src/one: git fetch --all",
            "/srv/src/two: git fetch --all",
            "/srv/src/two: git status",
            "/srv/src/two: git pull",
            "/srv/src/two: cargo build --release",
            "/srv/src/three: git fetch --all",
            "/srv/src/three: git status",
            "/srv/src/three: git pull",
        ]
    );
    assert_eq!(
        record.notices[1],
        Notice {
            project: Some("one".to_string()),
            entered: vec![Stage::Failed(FailureKind::CommandFailure)],
            report: Report { level: LogLevel::Error, message: "no such directory".to_string() },
        }
    );
    assert_eq!(
        record.notices[2],
        Notice {
            project: Some("two".to_string()),
            entered: vec![],
            report: Report { level: LogLevel::Debug, message: "Beginning update for project.".to_string() },
        }
    );
}

#[test]
fn the_service_is_stopped_before_and_started_after_the_projects() {
    let batch = Batch::new(settings(), Some(ServiceSpec::systemd("cron")), vec![project("one", None)]);
    let mut stopped = false;
    let (batch, record) = drive(batch, |_, command_line| match command_line {
        "systemctl stop cron" => {
            stopped = true;
            ok("")
        }
        "systemctl start cron" => {
            stopped = false;
            ok("")
        }
        "systemctl status cron" => ok(if stopped { "Active: inactive (dead)" } else { "Active: active (running)" }),
        "git status" => ok(BEHIND),
        _ => ok(""),
    });
    assert_eq!(batch.aborted(), None);
    assert_eq!(batch.outcomes(), &vec![Stage::Done]);
    assert_eq!(
        record.commands,
        vec![
            "systemctl stop cron",
            "systemctl status cron",
            "/srv/src/one: git fetch --all",
            "/srv/src/one: git status",
            "/srv/src/one: git pull",
            "systemctl start cron",
            "systemctl status cron",
        ]
    );
    assert_eq!(record.notices[0].project, None);
    assert_eq!(record.notices[1].project, None);
    assert_eq!(record.notices[2].project.as_deref(), Some("one"));
    assert_eq!(record.notices[2].report.message, "Beginning update for project.");
    assert_eq!(record.notices.last().unwrap().project, None);
}

#[test]
fn a_service_that_cannot_be_stopped_ends_the_run_before_any_project() {
    let batch = Batch::new(
        settings(),
        Some(ServiceSpec::systemd("cron")),
        vec![project("one", None), project("two", None)],
    );
    let (batch, record) = drive(batch, |_, command_line| match command_line {
        "systemctl stop cron" => Ok(CommandOutcome::Failure("access denied".to_string())),
        _ => ok(""),
    });
    assert_eq!(batch.aborted(), Some((Goal::Stopped, ServiceFailure::CommandFailure)));
    assert_eq!(batch.outcomes(), &Vec::<Stage>::new());
    assert_eq!(batch.waiting(), 2);
    assert_eq!(record.commands, vec!["systemctl stop cron"]);
    assert_eq!(record.notices.len(), 1);
    assert_eq!(record.notices[0].report.level, LogLevel::Error);
    assert_eq!(record.notices[0].report.message, "access denied");
}

#[test]
fn a_stop_that_is_not_confirmed_ends_the_run_before_any_project() {
    let batch = Batch::new(settings(), Some(ServiceSpec::systemd("cron")), vec![project("one", None)]);
    let (batch, record) = drive(batch, |_, command_line| match command_line {
        "systemctl status cron" => ok("Active: active (running)"),
        _ => ok(""),
    });
    assert_eq!(batch.aborted(), Some((Goal::Stopped, ServiceFailure::ConvergenceTimeout)));
    assert_eq!(batch.outcomes(), &Vec::<Stage>::new());
    assert_eq!(record.commands.len(), 12);
    assert!(record.commands.iter().all(|command| command.starts_with("systemctl")));
}

#[test]
fn a_start_that_is_not_confirmed_ends_the_run_as_given_up() {
    let batch = Batch::new(settings(), Some(ServiceSpec::systemd("cron")), vec![project("one", None)]);
    let (batch, _) = drive(batch, |_, command_line| match command_line {
        "systemctl status cron" => ok("Active: inactive (dead)"),
        "git status" => ok(UP_TO_DATE),
        _ => ok(""),
    });
    assert_eq!(batch.aborted(), Some((Goal::Started, ServiceFailure::ConvergenceTimeout)));
    assert_eq!(batch.outcomes(), &vec![Stage::Done]);
}

#[test]
fn an_event_for_the_wrong_side_changes_nothing() {
    let (batch, _) = Batch::new(settings(), None, vec![project("one", None)]);
    let (batch, notices) = batch.observe(BatchEvent::Service { judgement: ok(""), now_ms: 0 });
    assert_eq!(notices.len(), 1);
    assert_eq!(notices[0].report.level, LogLevel::Warn);
    assert_eq!(notices[0].project, None);
    match batch.pending() {
        BatchAction::Project(Action::Run(request)) => assert_eq!(request.step, CommandStep::Fetch),
        other => panic!("{other:?}"),
    }
}
