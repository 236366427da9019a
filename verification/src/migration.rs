//! The migration runner: which steps of a migration set are still to be
//! applied to a database, in what order, and when the run is over.
//!
//! A migration is a one-way change of the schema, known by its version. The
//! set is an input of the run; what is applied is what the database records.

use crate::error::Error;
use vstd::prelude::*;

verus! {

/// Versions stand in strictly ascending order.
pub open spec fn ascending(versions: Seq<u64>) -> bool {
    forall|i: int, j: int| 0 <= i < j < versions.len() ==> versions[i] < versions[j]
}

/// The predicate "not among the versions applied".
pub open spec fn unapplied(applied: Seq<u64>) -> spec_fn(u64) -> bool {
    |version: u64| !applied.contains(version)
}

/// The versions of `migrations` that are not applied yet, in the order of
/// `migrations`.
pub open spec fn pending(migrations: Seq<u64>, applied: Seq<u64>) -> Seq<u64> {
    migrations.filter(unapplied(applied))
}

/// The message of the fatal error that a failed step ends the run with.
pub open spec fn failure_message() -> Seq<char> {
    "Failed to run migrations on database"@
}

/// What is pending is exactly what the set holds and the database lacks.
pub proof fn lemma_pending_exact(migrations: Seq<u64>, applied: Seq<u64>, version: u64)
    ensures
        pending(migrations, applied).contains(version) <==> migrations.contains(version)
            && !applied.contains(version),
{
    broadcast use vstd::seq_lib::group_filter_ensures;

    let rest = pending(migrations, applied);
    if rest.contains(version) {
        migrations.lemma_filter_contains_rev(unapplied(applied), version);
        let at = choose|i: int| 0 <= i < rest.len() && rest[i] == version;
        assert(unapplied(applied)(rest[at]));
    }
    if migrations.contains(version) && !applied.contains(version) {
        let at = choose|i: int| 0 <= i < migrations.len() && migrations[i] == version;
        assert(unapplied(applied)(migrations[at]));
        assert(rest.contains(migrations[at]));
    }
}

/// What is pending of an ascending set is ascending: the steps are applied
/// from the lowest version up.
pub proof fn lemma_pending_ascending(migrations: Seq<u64>, applied: Seq<u64>)
    requires
        ascending(migrations),
    ensures
        ascending(pending(migrations, applied)),
    decreases migrations.len(),
{
    reveal(Seq::filter);
    if migrations.len() > 0 {
        let front = migrations.drop_last();
        let last = migrations.last();
        lemma_pending_ascending(front, applied);
        let kept = pending(front, applied);
        assert forall|i: int| 0 <= i < kept.len() implies kept[i] < last by {
            assert(kept.contains(kept[i]));
            front.lemma_filter_contains_rev(unapplied(applied), kept[i]);
            let at = choose|k: int| 0 <= k < front.len() && front[k] == kept[i];
            assert(migrations[at] < migrations[migrations.len() - 1]);
        }
    }
}

/// Once what was pending is applied, nothing is pending: a second run on the
/// same database changes nothing.
pub proof fn lemma_rerun_applies_nothing(migrations: Seq<u64>, applied: Seq<u64>)
    ensures
        pending(migrations, applied + pending(migrations, applied)) == Seq::<u64>::empty(),
{
    broadcast use vstd::seq_lib::group_filter_ensures;

    let first = pending(migrations, applied);
    let second = pending(migrations, applied + first);
    if second.len() > 0 {
        let version = second[0];
        assert(second.contains(version));
        lemma_pending_exact(migrations, applied + first, version);
        lemma_pending_exact(migrations, applied, version);
        if applied.contains(version) {
            let at = choose|i: int| 0 <= i < applied.len() && applied[i] == version;
            assert((applied + first)[at] == version);
        } else {
            let at = choose|i: int| 0 <= i < first.len() && first[i] == version;
            assert((applied + first)[applied.len() + at] == version);
        }
    }
    assert(second =~= Seq::<u64>::empty());
}

/// The migrations that the service knows, by version.
#[derive(Debug)]
pub struct MigrationSet {
    versions: Vec<u64>,
}

impl View for MigrationSet {
    type V = Seq<u64>;

    closed spec fn view(&self) -> Seq<u64> {
        self.versions@
    }
}

/// Whether `version` is among `applied`.
pub fn is_applied(applied: &Vec<u64>, version: u64) -> (found: bool)
    ensures
        found == applied@.contains(version),
{
    let mut at: usize = 0;
    while at < applied.len()
        invariant
            at <= applied.len(),
            forall|i: int| 0 <= i < at ==> applied@[i] != version,
        decreases applied.len() - at,
    {
        if applied[at] == version {
            return true;
        }
        at += 1;
    }
    false
}

impl MigrationSet {
    #[verifier::type_invariant]
    spec fn versions_ascend(self) -> bool {
        ascending(self@)
    }

    /// The set of the migrations with the versions `versions`, where these
    /// ascend strictly; no set otherwise.
    pub fn new(versions: Vec<u64>) -> (set: Option<MigrationSet>)
        ensures
            set is Some == ascending(versions@),
            set matches Some(made) ==> made@ == versions@,
    {
        let mut at: usize = 1;
        while at < versions.len()
            invariant
                1 <= at,
                forall|i: int, j: int|
                    0 <= i < j < at && j < versions.len() ==> versions@[i] < versions@[j],
            decreases versions.len() - at,
        {
            if versions[at - 1] >= versions[at] {
                return None;
            }
            assert forall|i: int, j: int|
                0 <= i < j < at + 1 && j < versions.len() implies versions@[i] < versions@[j] by {
                if j == at && i < at - 1 {
                    assert(versions@[i] < versions@[at - 1]);
                }
            }
            at += 1;
        }
        Some(MigrationSet { versions })
    }

    /// The versions of the set, ascending.
    pub fn versions(&self) -> (versions: &Vec<u64>)
        ensures
            versions@ == self@,
            ascending(self@),
    {
        proof {
            use_type_invariant(self);
        }
        &self.versions
    }

    /// The versions still to be applied to a database that records
    /// `applied`, from the lowest up.
    pub fn pending(&self, applied: &Vec<u64>) -> (plan: Vec<u64>)
        ensures
            plan@ == pending(self@, applied@),
            ascending(plan@),
    {
        proof {
            use_type_invariant(self);
            lemma_pending_ascending(self@, applied@);
        }
        let mut plan: Vec<u64> = Vec::new();
        let mut at: usize = 0;
        proof {
            reveal(Seq::filter);
            assert(self@.subrange(0, 0) =~= Seq::<u64>::empty());
        }
        while at < self.versions.len()
            invariant
                at <= self.versions.len(),
                plan@ == pending(self@.subrange(0, at as int), applied@),
            decreases self.versions.len() - at,
        {
            let version = self.versions[at];
            proof {
                assert(self@.subrange(0, at + 1) =~= self@.subrange(0, at as int).push(version));
                self@.subrange(0, at as int).lemma_filter_push(version, unapplied(applied@));
            }
            if !is_applied(applied, version) {
                plan.push(version);
            }
            at += 1;
        }
        assert(self@.subrange(0, at as int) =~= self@);
        plan
    }
}

/// How a run stands.
#[derive(Clone, Copy, Debug, PartialEq, Eq, Structural)]
pub enum Progress {
    /// A step is under way.
    Running,
    /// Every pending step is applied. The service may start.
    Finished,
    /// A step failed. The service must not start.
    Aborted,
}

/// What the driver of a run is to do next.
#[derive(Debug)]
pub enum Step {
    /// Apply the migration with this version in a transaction, and record
    /// the version in it.
    Apply(u64),
    /// Nothing is pending.
    Finish,
    /// Give up with this error.
    Abort(Error),
}

/// What a [`Step`] is, mathematically.
pub enum StepView {
    Apply(u64),
    Finish,
    Abort(Seq<char>),
}

impl View for Step {
    type V = StepView;

    open spec fn view(&self) -> StepView {
        match self {
            Step::Apply(version) => StepView::Apply(*version),
            Step::Finish => StepView::Finish,
            Step::Abort(error) => StepView::Abort(error@),
        }
    }
}

/// What came of the step that was under way.
#[derive(Clone, Copy, Debug, PartialEq, Eq, Structural)]
pub enum StepResult {
    /// The transaction is committed, the version recorded.
    Applied,
    /// The transaction is rolled back.
    Failed,
}

/// What a [`Runner`] is, mathematically.
pub struct RunnerView {
    /// The versions to apply, ascending.
    pub plan: Seq<u64>,
    /// How many of them are applied.
    pub applied: nat,
    pub progress: Progress,
}

impl RunnerView {
    /// A run stands well when it has applied no more than it planned, is
    /// finished only with all of it, and is running only with some of it left.
    pub open spec fn well_formed(self) -> bool {
        &&& self.applied <= self.plan.len()
        &&& self.progress == Progress::Running ==> self.applied < self.plan.len()
        &&& self.progress == Progress::Finished ==> self.applied == self.plan.len()
    }

    /// The versions that the run has recorded so far.
    pub open spec fn recorded(self) -> Seq<u64> {
        self.plan.subrange(0, self.applied as int)
    }

    /// What the run asks for in its state.
    pub open spec fn due(self) -> StepView {
        match self.progress {
            Progress::Running => StepView::Apply(self.plan[self.applied as int]),
            Progress::Finished => StepView::Finish,
            Progress::Aborted => StepView::Abort(failure_message()),
        }
    }

    /// The run of the plan `plan`, at its start.
    pub open spec fn start(plan: Seq<u64>) -> RunnerView {
        RunnerView {
            plan,
            applied: 0,
            progress: if plan.len() == 0 {
                Progress::Finished
            } else {
                Progress::Running
            },
        }
    }

    /// The run after the step under way ended in `result`. A run that is
    /// over stays as it is.
    pub open spec fn step(self, result: StepResult) -> RunnerView {
        match self.progress {
            Progress::Running => match result {
                StepResult::Applied => RunnerView {
                    plan: self.plan,
                    applied: self.applied + 1,
                    progress: if self.applied + 1 == self.plan.len() {
                        Progress::Finished
                    } else {
                        Progress::Running
                    },
                },
                StepResult::Failed => RunnerView {
                    plan: self.plan,
                    applied: self.applied,
                    progress: Progress::Aborted,
                },
            },
            _ => self,
        }
    }
}

/// One run of the migration set against one database.
#[derive(Debug)]
pub struct Runner {
    plan: Vec<u64>,
    applied: usize,
    progress: Progress,
}

impl View for Runner {
    type V = RunnerView;

    closed spec fn view(&self) -> RunnerView {
        RunnerView { plan: self.plan@, applied: self.applied as nat, progress: self.progress }
    }
}

impl Runner {
    #[verifier::type_invariant]
    spec fn stands_well(self) -> bool {
        self@.well_formed()
    }

    /// Plans a run of `migrations` against a database that records
    /// `applied`, and says what to do first.
    pub fn new(migrations: &MigrationSet, applied: &Vec<u64>) -> (start: (Runner, Step))
        ensures
            start.0@ == RunnerView::start(pending(migrations@, applied@)),
            start.1@ == start.0@.due(),
            start.0@.well_formed(),
    {
        let plan = migrations.pending(applied);
        let progress = if plan.len() == 0 {
            Progress::Finished
        } else {
            Progress::Running
        };
        let runner = Runner { plan, applied: 0, progress };
        let step = runner.due();
        (runner, step)
    }

    fn due(&self) -> (step: Step)
        ensures
            step@ == self@.due(),
            self@.well_formed(),
    {
        proof {
            use_type_invariant(self);
        }
        match self.progress {
            Progress::Running => Step::Apply(self.plan[self.applied]),
            Progress::Finished => Step::Finish,
            Progress::Aborted => Step::Abort(Error::new("Failed to run migrations on database")),
        }
    }

    /// Takes the result of the step under way and says what to do next.
    pub fn step(self, result: StepResult) -> (next: (Runner, Step))
        ensures
            next.0@ == self@.step(result),
            next.1@ == next.0@.due(),
            next.0@.well_formed(),
    {
        proof {
            use_type_invariant(&self);
            assert(self@.progress == Progress::Running ==> self.applied < self.plan@.len());
        }
        let Runner { plan, applied, progress } = self;
        let runner = match progress {
            Progress::Running => match result {
                StepResult::Applied => {
                    let planned = plan.len();
                    let progress = if applied + 1 == planned {
                        Progress::Finished
                    } else {
                        Progress::Running
                    };
                    Runner { plan, applied: applied + 1, progress }
                },
                StepResult::Failed => Runner { plan, applied, progress: Progress::Aborted },
            },
            _ => Runner { plan, applied, progress },
        };
        let step = runner.due();
        (runner, step)
    }

    pub fn progress(&self) -> (progress: Progress)
        ensures
            progress == self@.progress,
    {
        self.progress
    }
}

/// Runs `migrations` against a record of applied versions kept in memory,
/// where every step succeeds: what was pending is recorded, in ascending
/// order, after what was recorded before.
pub fn migrate(migrations: &MigrationSet, applied: &mut Vec<u64>)
    ensures
        final(applied)@ == old(applied)@ + pending(migrations@, old(applied)@),
        pending(migrations@, final(applied)@) == Seq::<u64>::empty(),
{
    let start = Runner::new(migrations, applied);
    let mut runner = start.0;
    let mut step = start.1;
    loop
        invariant
            runner@.plan == pending(migrations@, old(applied)@),
            runner@.well_formed(),
            !(runner@.progress is Aborted),
            step@ == runner@.due(),
            applied@ == old(applied)@ + runner@.recorded(),
        decreases runner@.plan.len() - runner@.applied,
    {
        match step {
            Step::Apply(version) => {
                let ghost before = runner@;
                applied.push(version);
                let next = runner.step(StepResult::Applied);
                runner = next.0;
                step = next.1;
                assert(runner@.recorded() =~= before.recorded().push(version));
                assert(applied@ =~= old(applied)@ + runner@.recorded());
            },
            _ => {
                assert(runner@.recorded() =~= runner@.plan);
                proof {
                    lemma_rerun_applies_nothing(migrations@, old(applied)@);
                }
                return ;
            },
        }
    }
}

} // verus!
