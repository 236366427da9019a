//! The way from the configuration to a serving process, as a state machine:
//! open the database, take a connection, bring the schema up to date, bind
//! the listener, serve. Any failure on the way is fatal, and no request is
//! served against a database whose schema is not known to be current.

use crate::error::Error;
use crate::http::{listen_address, HttpServerConfig};
use crate::migration::{
    failure_message, pending, MigrationSet, Progress, Runner, RunnerView, Step, StepResult,
    StepView,
};
use crate::pool::{PoolConfig, PoolConfigView};
use vstd::prelude::*;
use vstd::string::StringExecFns;

verus! {

/// How far the start has come.
#[derive(Debug)]
pub enum Phase {
    /// The connection pool of the database file is being built.
    OpeningDatabase,
    /// A first connection is asked for.
    Connecting,
    /// The versions that the database records as applied are being read.
    ReadingHistory,
    /// A pending migration is being applied.
    Migrating(Runner),
    /// The listener is being bound.
    Binding,
    /// Requests are served.
    Serving,
    /// The server ended without an error.
    Stopped,
    /// The start, or the server, failed with this error.
    Failed(Error),
}

/// What a [`Phase`] is, mathematically.
pub enum PhaseView {
    OpeningDatabase,
    Connecting,
    ReadingHistory,
    Migrating(RunnerView),
    Binding,
    Serving,
    Stopped,
    Failed(Seq<char>),
}

impl View for Phase {
    type V = PhaseView;

    open spec fn view(&self) -> PhaseView {
        match self {
            Phase::OpeningDatabase => PhaseView::OpeningDatabase,
            Phase::Connecting => PhaseView::Connecting,
            Phase::ReadingHistory => PhaseView::ReadingHistory,
            Phase::Migrating(runner) => PhaseView::Migrating(runner@),
            Phase::Binding => PhaseView::Binding,
            Phase::Serving => PhaseView::Serving,
            Phase::Stopped => PhaseView::Stopped,
            Phase::Failed(error) => PhaseView::Failed(error@),
        }
    }
}

/// What the process is to do next.
#[derive(Debug)]
pub enum Task {
    /// Build the connection pool for the database file at this path, within
    /// these bounds.
    OpenDatabase(String, PoolConfig),
    /// Take a connection from the pool.
    Connect,
    /// Read the versions that the database records as applied.
    ReadHistory,
    /// Apply the migration with this version in a transaction, and record
    /// the version in it.
    Apply(u64),
    /// Bind the listener to this address.
    Bind(String),
    /// Serve requests on the listener.
    Serve,
    /// End the process without an error.
    Exit,
    /// End the process with this error.
    Abort(Error),
}

/// What a [`Task`] is, mathematically.
pub enum TaskView {
    OpenDatabase(Seq<char>, PoolConfigView),
    Connect,
    ReadHistory,
    Apply(u64),
    Bind(Seq<char>),
    Serve,
    Exit,
    Abort(Seq<char>),
}

impl View for Task {
    type V = TaskView;

    open spec fn view(&self) -> TaskView {
        match self {
            Task::OpenDatabase(path, pool) => TaskView::OpenDatabase(path@, pool@),
            Task::Connect => TaskView::Connect,
            Task::ReadHistory => TaskView::ReadHistory,
            Task::Apply(version) => TaskView::Apply(*version),
            Task::Bind(address) => TaskView::Bind(address@),
            Task::Serve => TaskView::Serve,
            Task::Exit => TaskView::Exit,
            Task::Abort(error) => TaskView::Abort(error@),
        }
    }
}

/// What came of the last task.
#[derive(Debug)]
pub enum Report {
    /// The task is done.
    Done,
    /// The history is read: these versions are applied.
    History(Vec<u64>),
    /// The task failed, for this reason.
    Failed(String),
}

/// What a [`Report`] is, mathematically.
pub enum ReportView {
    Done,
    History(Seq<u64>),
    Failed(Seq<char>),
}

impl View for Report {
    type V = ReportView;

    open spec fn view(&self) -> ReportView {
        match self {
            Report::Done => ReportView::Done,
            Report::History(applied) => ReportView::History(applied@),
            Report::Failed(reason) => ReportView::Failed(reason@),
        }
    }
}

/// The message of the failure "the report does not answer the task".
pub open spec fn out_of_turn_message() -> Seq<char> {
    "Unexpected report on the start"@
}

/// What a [`Startup`] is, mathematically.
pub struct StartupView {
    /// The path of the database file.
    pub path: Seq<char>,
    /// The bounds of the connection pool.
    pub pool: PoolConfigView,
    /// The versions of the migration set, ascending.
    pub migrations: Seq<u64>,
    /// The port to listen on.
    pub port: Seq<char>,
    pub phase: PhaseView,
}

impl StartupView {
    /// A start stands well when its migration run does.
    pub open spec fn well_formed(self) -> bool {
        self.phase matches PhaseView::Migrating(runner) ==> runner.well_formed()
    }

    /// The start at the phase `phase`, with the same configuration.
    pub open spec fn at(self, phase: PhaseView) -> StartupView {
        StartupView {
            path: self.path,
            pool: self.pool,
            migrations: self.migrations,
            port: self.port,
            phase,
        }
    }

    /// The start that has failed with `message`, and the task that ends the
    /// process with it.
    pub open spec fn fail(self, message: Seq<char>) -> (StartupView, TaskView) {
        (self.at(PhaseView::Failed(message)), TaskView::Abort(message))
    }

    /// The message that a task is given up with when it failed for `reason`:
    /// it says what could not be done. Only a connection that the pool did
    /// not give is reported in the pool's own words.
    pub open spec fn failure(self, reason: Seq<char>) -> Seq<char> {
        match self.phase {
            PhaseView::OpeningDatabase => "Failed to open database at "@ + self.path,
            PhaseView::ReadingHistory => failure_message(),
            PhaseView::Migrating(_) => failure_message(),
            PhaseView::Binding => "Failed to bind to port "@ + self.port,
            PhaseView::Serving => "Received error from running server"@,
            _ => reason,
        }
    }

    /// The start with the migration run at `runner`: the step that is due is
    /// applied next; with none left the listener is bound.
    pub open spec fn migrating(self, runner: RunnerView) -> (StartupView, TaskView) {
        match runner.due() {
            StepView::Apply(version) => (
                self.at(PhaseView::Migrating(runner)),
                TaskView::Apply(version),
            ),
            StepView::Finish => (
                self.at(PhaseView::Binding),
                TaskView::Bind(listen_address(self.port)),
            ),
            StepView::Abort(message) => self.fail(message),
        }
    }

    /// The start of a process, and its first task.
    pub open spec fn start(
        path: Seq<char>,
        pool: PoolConfigView,
        migrations: Seq<u64>,
        port: Seq<char>,
    ) -> (StartupView, TaskView) {
        (
            StartupView { path, pool, migrations, port, phase: PhaseView::OpeningDatabase },
            TaskView::OpenDatabase(path, pool),
        )
    }

    /// The state after the task under way ended in `report`, and the next
    /// task. Each task is due only when the one before it is done; each
    /// failure is fatal; a start that is over stays as it is.
    pub open spec fn step(self, report: ReportView) -> (StartupView, TaskView) {
        match self.phase {
            PhaseView::Stopped => (self, TaskView::Exit),
            PhaseView::Failed(message) => (self, TaskView::Abort(message)),
            _ => match report {
                ReportView::Failed(reason) => self.fail(self.failure(reason)),
                ReportView::History(applied) => match self.phase {
                    PhaseView::ReadingHistory => self.migrating(
                        RunnerView::start(pending(self.migrations, applied)),
                    ),
                    _ => self.fail(out_of_turn_message()),
                },
                ReportView::Done => match self.phase {
                    PhaseView::OpeningDatabase => (
                        self.at(PhaseView::Connecting),
                        TaskView::Connect,
                    ),
                    PhaseView::Connecting => (
                        self.at(PhaseView::ReadingHistory),
                        TaskView::ReadHistory,
                    ),
                    PhaseView::Migrating(runner) => self.migrating(
                        runner.step(StepResult::Applied),
                    ),
                    PhaseView::Binding => (self.at(PhaseView::Serving), TaskView::Serve),
                    PhaseView::Serving => (self.at(PhaseView::Stopped), TaskView::Exit),
                    _ => self.fail(out_of_turn_message()),
                },
            },
        }
    }
}

/// The start of one process.
#[derive(Debug)]
pub struct Startup {
    path: String,
    pool: PoolConfig,
    migrations: MigrationSet,
    config: HttpServerConfig,
    phase: Phase,
}

impl View for Startup {
    type V = StartupView;

    closed spec fn view(&self) -> StartupView {
        StartupView {
            path: self.path@,
            pool: self.pool@,
            migrations: self.migrations@,
            port: self.config@,
            phase: self.phase@,
        }
    }
}

impl Startup {
    /// Begins the start of a process that keeps its database at `path`,
    /// pools its connections within `pool`, knows the migrations
    /// `migrations` and listens as `config` says.
    pub fn new(
        path: &str,
        pool: PoolConfig,
        migrations: MigrationSet,
        config: HttpServerConfig,
    ) -> (start: (Startup, Task))
        ensures
            (start.0@, start.1@) == StartupView::start(path@, pool@, migrations@, config@),
            start.0@.well_formed(),
    {
        (
            Startup {
                path: path.to_owned(),
                pool,
                migrations,
                config,
                phase: Phase::OpeningDatabase,
            },
            Task::OpenDatabase(path.to_owned(), pool),
        )
    }

    fn at(rest: Startup, phase: Phase) -> (next: Startup)
        ensures
            next@ == rest@.at(phase@),
    {
        Startup {
            path: rest.path,
            pool: rest.pool,
            migrations: rest.migrations,
            config: rest.config,
            phase,
        }
    }

    fn fail(rest: Startup, error: Error) -> (next: (Startup, Task))
        ensures
            (next.0@, next.1@) == rest@.fail(error@),
    {
        let copy = error.clone();
        (Self::at(rest, Phase::Failed(error)), Task::Abort(copy))
    }

    fn migrating(rest: Startup, run: (Runner, Step)) -> (next: (Startup, Task))
        requires
            run.1@ == run.0@.due(),
            run.0@.well_formed(),
        ensures
            (next.0@, next.1@) == rest@.migrating(run.0@),
            next.0@.well_formed(),
    {
        match run.1 {
            Step::Apply(version) => (Self::at(rest, Phase::Migrating(run.0)), Task::Apply(version)),
            Step::Finish => {
                let address = rest.config.address();
                (Self::at(rest, Phase::Binding), Task::Bind(address))
            },
            Step::Abort(error) => Self::fail(rest, error),
        }
    }

    fn failure(rest: &Startup, phase: &Phase, reason: String) -> (error: Error)
        ensures
            error@ == rest@.at(phase@).failure(reason@),
    {
        match phase {
            Phase::OpeningDatabase => {
                let mut message = "Failed to open database at ".to_owned();
                message.append(rest.path.as_str());
                Error::new(message.as_str())
            },
            Phase::ReadingHistory => Error::new("Failed to run migrations on database"),
            Phase::Migrating(_) => Error::new("Failed to run migrations on database"),
            Phase::Binding => {
                let mut message = "Failed to bind to port ".to_owned();
                message.append(rest.config.port());
                Error::new(message.as_str())
            },
            Phase::Serving => Error::new("Received error from running server"),
            _ => Error::new(reason.as_str()),
        }
    }

    /// Takes the report on the task under way and says what to do next.
    pub fn step(self, report: Report) -> (next: (Startup, Task))
        ensures
            (next.0@, next.1@) == self@.step(report@),
            next.0@.well_formed(),
    {
        let Startup { path, pool, migrations, config, phase } = self;
        let rest = Startup { path, pool, migrations, config, phase: Phase::Stopped };
        assert(rest@.at(phase@) == self@);
        match phase {
            Phase::Stopped => (rest, Task::Exit),
            Phase::Failed(error) => Self::fail(rest, error),
            phase => match report {
                Report::Failed(reason) => {
                    let error = Self::failure(&rest, &phase, reason);
                    Self::fail(rest, error)
                },
                Report::History(applied) => match phase {
                    Phase::ReadingHistory => {
                        let run = Runner::new(&rest.migrations, &applied);
                        Self::migrating(rest, run)
                    },
                    _ => Self::fail(rest, Error::new("Unexpected report on the start")),
                },
                Report::Done => match phase {
                    Phase::OpeningDatabase => (Self::at(rest, Phase::Connecting), Task::Connect),
                    Phase::Connecting => (
                        Self::at(rest, Phase::ReadingHistory),
                        Task::ReadHistory,
                    ),
                    Phase::Migrating(runner) => {
                        let run = runner.step(StepResult::Applied);
                        Self::migrating(rest, run)
                    },
                    Phase::Binding => (Self::at(rest, Phase::Serving), Task::Serve),
                    Phase::Serving => (rest, Task::Exit),
                    _ => Self::fail(rest, Error::new("Unexpected report on the start")),
                },
            },
        }
    }
}

impl StartupView {
    /// Whether `report` shows the schema to be current: the history that was
    /// read leaves nothing pending, or the last pending migration is applied.
    pub open spec fn completes_migration(self, report: ReportView) -> bool {
        match (self.phase, report) {
            (PhaseView::ReadingHistory, ReportView::History(applied)) => pending(
                self.migrations,
                applied,
            ).len() == 0,
            (PhaseView::Migrating(runner), ReportView::Done) => runner.step(
                StepResult::Applied,
            ).progress == Progress::Finished,
            _ => false,
        }
    }

    /// The version to apply after `report`, if there is one: the lowest
    /// pending one once the history is read, then the one that follows the
    /// one just applied.
    pub open spec fn next_migration(self, report: ReportView) -> Option<u64> {
        match (self.phase, report) {
            (PhaseView::ReadingHistory, ReportView::History(applied)) => if pending(
                self.migrations,
                applied,
            ).len() > 0 {
                Some(pending(self.migrations, applied)[0])
            } else {
                None
            },
            (PhaseView::Migrating(runner), ReportView::Done) => if runner.progress
                == Progress::Running && runner.applied + 1 < runner.plan.len() {
                Some(runner.plan[(runner.applied + 1) as int])
            } else {
                None
            },
            _ => None,
        }
    }
}

/// Requests are served only by a process that has opened its database,
/// taken a connection, read what is applied and applied what was pending, in
/// this order. The listener is bound when the schema is shown to be current,
/// and never otherwise.
pub proof fn serving_follows_migration(startup: StartupView, report: ReportView)
    requires
        startup.well_formed(),
    ensures
        ({
            let (next, task) = startup.step(report);
            &&& task is Serve <==> startup.phase is Binding && report is Done
            &&& task is Bind <==> startup.completes_migration(report)
            &&& task is ReadHistory <==> startup.phase is Connecting && report is Done
            &&& task is Connect <==> startup.phase is OpeningDatabase && report is Done
            &&& report is Failed && !(startup.phase is Stopped) ==> task is Abort
            &&& next.phase is Serving ==> task is Serve
            &&& next.at(startup.phase) == startup
        }),
{
}

/// The migrations are applied from the lowest pending version up, one after
/// each report on the one before, and no other version is ever applied.
pub proof fn migrations_are_applied_in_order(startup: StartupView, report: ReportView)
    requires
        startup.well_formed(),
    ensures
        ({
            let (next, task) = startup.step(report);
            &&& task matches TaskView::Apply(version) ==> startup.next_migration(report) == Some(
                version,
            )
            &&& startup.next_migration(report) matches Some(version) ==> task == TaskView::Apply(
                version,
            )
            &&& next.well_formed()
        }),
{
}

} // verus!
