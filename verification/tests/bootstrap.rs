use tag_registry::http::HttpServerConfig;
use tag_registry::migration::{
    is_applied, migrate, MigrationSet, Progress, Runner, Step, StepResult,
};
use tag_registry::pool::PoolConfig;
use tag_registry::startup::{Report, Startup, Task};

#[test]
fn config_keeps_the_port() {
    let config = HttpServerConfig::new("8080");
    assert_eq!(config.port(), "8080");
    assert_eq!(config.address(), "0.0.0.0:8080");
}

#[test]
fn sets_need_ascending_versions() {
    assert!(MigrationSet::new(vec![1, 2, 3]).is_some());
    assert!(MigrationSet::new(Vec::new()).is_some());
    assert!(MigrationSet::new(vec![5]).is_some());
    assert!(MigrationSet::new(vec![1, 1]).is_none());
    assert!(MigrationSet::new(vec![2, 1]).is_none());
    assert!(MigrationSet::new(vec![1, 3, 2]).is_none());
    assert_eq!(MigrationSet::new(vec![1, 2, 3]).unwrap().versions(), &vec![1, 2, 3]);
}

#[test]
fn pending_is_what_the_database_lacks() {
    let set = MigrationSet::new(vec![10, 20, 30, 40]).unwrap();
    assert_eq!(set.pending(&Vec::new()), vec![10, 20, 30, 40]);
    assert_eq!(set.pending(&vec![10, 20]), vec![30, 40]);
    assert_eq!(set.pending(&vec![20, 40]), vec![10, 30]);
    assert_eq!(set.pending(&vec![40, 30, 20, 10]), Vec::<u64>::new());
    assert_eq!(set.pending(&vec![99]), vec![10, 20, 30, 40]);
    assert!(is_applied(&vec![1, 2], 2));
    assert!(!is_applied(&vec![1, 2], 3));
}

#[test]
fn migrating_twice_changes_nothing_more() {
    let set = MigrationSet::new(vec![10, 20, 30]).unwrap();
    let mut applied = vec![20];
    migrate(&set, &mut applied);
    assert_eq!(applied, vec![20, 10, 30]);
    migrate(&set, &mut applied);
    assert_eq!(applied, vec![20, 10, 30]);
    assert!(set.pending(&applied).is_empty());
}

#[test]
fn runner_applies_in_ascending_order() {
    let set = MigrationSet::new(vec![1, 2, 3]).unwrap();
    let (runner, step) = Runner::new(&set, &vec![2]);
    assert!(matches!(step, Step::Apply(1)));
    assert_eq!(runner.progress(), Progress::Running);
    let (runner, step) = runner.step(StepResult::Applied);
    assert!(matches!(step, Step::Apply(3)));
    let (runner, step) = runner.step(StepResult::Applied);
    assert!(matches!(step, Step::Finish));
    assert_eq!(runner.progress(), Progress::Finished);
    let (runner, step) = runner.step(StepResult::Applied);
    assert!(matches!(step, Step::Finish));
    assert_eq!(runner.progress(), Progress::Finished);
}

#[test]
fn runner_with_nothing_pending_finishes_at_once() {
    let set = MigrationSet::new(vec![1, 2]).unwrap();
    let (runner, step) = Runner::new(&set, &vec![1, 2]);
    assert!(matches!(step, Step::Finish));
    assert_eq!(runner.progress(), Progress::Finished);
}

#[test]
fn failed_step_aborts_the_run() {
    let set = MigrationSet::new(vec![1, 2, 3]).unwrap();
    let (runner, _) = Runner::new(&set, &Vec::new());
    let (runner, _) = runner.step(StepResult::Applied);
    let (runner, step) = runner.step(StepResult::Failed);
    assert_eq!(runner.progress(), Progress::Aborted);
    match step {
        Step::Abort(error) => assert_eq!(error.message(), "Failed to run migrations on database"),
        other => panic!("no abort: {:?}", other),
    }
    let (runner, step) = runner.step(StepResult::Applied);
    assert_eq!(runner.progress(), Progress::Aborted);
    assert!(matches!(step, Step::Abort(_)));
}

fn started() -> (Startup, Task) {
    let pool = PoolConfig::new(4, 30).expect("positive bounds");
    let migrations = MigrationSet::new(vec![10, 20, 30]).expect("ascending versions");
    Startup::new("tags.db", pool, migrations, HttpServerConfig::new("3000"))
}

/// A start that has opened the database and taken a connection.
fn connected() -> Startup {
    let (startup, _) = started();
    let (startup, _) = startup.step(Report::Done);
    let (startup, task) = startup.step(Report::Done);
    assert!(matches!(task, Task::ReadHistory));
    startup
}

/// A start that has found its schema current.
fn migrated() -> Startup {
    let (startup, task) = connected().step(Report::History(vec![30, 20, 10]));
    assert!(matches!(task, Task::Bind(_)));
    startup
}

fn abort_message(task: Task) -> String {
    match task {
        Task::Abort(error) => error.message().to_string(),
        other => panic!("no abort: {:?}", other),
    }
}

fn failed() -> Report {
    Report::Failed("cause".to_string())
}

#[test]
fn start_goes_from_database_to_serving() {
    let (startup, task) = started();
    assert!(matches!(
        &task,
        Task::OpenDatabase(path, pool)
            if path == "tags.db" && pool.max_size() == 4 && pool.timeout_seconds() == 30
    ));
    let (startup, task) = startup.step(Report::Done);
    assert!(matches!(task, Task::Connect));
    let (startup, task) = startup.step(Report::Done);
    assert!(matches!(task, Task::ReadHistory));
    let (startup, task) = startup.step(Report::History(vec![20]));
    assert!(matches!(task, Task::Apply(10)));
    let (startup, task) = startup.step(Report::Done);
    assert!(matches!(task, Task::Apply(30)));
    let (startup, task) = startup.step(Report::Done);
    assert!(matches!(&task, Task::Bind(address) if address == "0.0.0.0:3000"));
    let (startup, task) = startup.step(Report::Done);
    assert!(matches!(task, Task::Serve));
    let (startup, task) = startup.step(Report::Done);
    assert!(matches!(task, Task::Exit));
    let (_, task) = startup.step(Report::Failed("late".to_string()));
    assert!(matches!(task, Task::Exit));
}

#[test]
fn current_schema_is_not_migrated_again() {
    let (_, task) = connected().step(Report::History(vec![30, 20, 10]));
    assert!(matches!(&task, Task::Bind(address) if address == "0.0.0.0:3000"));
    let (_, task) = connected().step(Report::History(vec![10, 20, 30, 40]));
    assert!(matches!(task, Task::Bind(_)));
}

#[test]
fn fresh_database_gets_every_migration() {
    let (startup, task) = connected().step(Report::History(Vec::new()));
    assert!(matches!(task, Task::Apply(10)));
    let (startup, task) = startup.step(Report::Done);
    assert!(matches!(task, Task::Apply(20)));
    let (startup, task) = startup.step(Report::Done);
    assert!(matches!(task, Task::Apply(30)));
    let (_, task) = startup.step(Report::Done);
    assert!(matches!(task, Task::Bind(_)));
}

#[test]
fn each_failure_is_fatal_under_its_message() {
    let (startup, _) = started();
    let (startup, task) = startup.step(failed());
    assert_eq!(abort_message(task), "Failed to open database at tags.db");
    let (_, task) = startup.step(Report::Done);
    assert_eq!(abort_message(task), "Failed to open database at tags.db");

    let (startup, _) = started();
    let (startup, _) = startup.step(Report::Done);
    let (_, task) = startup.step(Report::Failed("timed out waiting for connection".to_string()));
    assert_eq!(abort_message(task), "timed out waiting for connection");

    let (_, task) = connected().step(failed());
    assert_eq!(abort_message(task), "Failed to run migrations on database");

    let (startup, _) = connected().step(Report::History(Vec::new()));
    let (startup, _) = startup.step(Report::Done);
    let (startup, task) = startup.step(failed());
    assert_eq!(abort_message(task), "Failed to run migrations on database");
    let (_, task) = startup.step(Report::Done);
    assert_eq!(abort_message(task), "Failed to run migrations on database");

    let (_, task) = migrated().step(failed());
    assert_eq!(abort_message(task), "Failed to bind to port 3000");

    let (startup, _) = migrated().step(Report::Done);
    let (_, task) = startup.step(failed());
    assert_eq!(abort_message(task), "Received error from running server");
}

#[test]
fn report_that_answers_no_task_is_fatal() {
    let (startup, _) = started();
    let (_, task) = startup.step(Report::History(Vec::new()));
    assert_eq!(abort_message(task), "Unexpected report on the start");

    let (_, task) = connected().step(Report::Done);
    assert_eq!(abort_message(task), "Unexpected report on the start");

    let (_, task) = migrated().step(Report::History(Vec::new()));
    assert_eq!(abort_message(task), "Unexpected report on the start");
}

#[test]
fn pool_bounds_must_be_positive() {
    assert!(PoolConfig::new(0, 30).is_none());
    assert!(PoolConfig::new(10, 0).is_none());
    assert!(PoolConfig::new(0, 0).is_none());
    let pool = PoolConfig::new(1, 1).expect("positive bounds");
    assert_eq!(pool.max_size(), 1);
    assert_eq!(pool.timeout_seconds(), 1);
    let pool = PoolConfig::new(u32::MAX, u64::MAX).expect("positive bounds");
    assert_eq!(pool.max_size(), u32::MAX);
    assert_eq!(pool.timeout_seconds(), u64::MAX);
}
