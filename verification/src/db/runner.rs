//! The migration runner: a state machine that decides, from what the store
//! answered, what is asked of it next.
//!
//! The runner does no work on a store itself. Whoever drives it asks for
//! the next action, performs it, and hands the answer back as an event.

use vstd::prelude::*;
use vstd::string::*;
use crate::db::catalog::{
    Catalog, Operation, OperationView, StepView, countable, describe_step, gap_free,
    step_description,
};
use crate::db::ledger::{LedgerRow, highest_of, highest_version};
use crate::db::text::{decimal, push_decimal};
use crate::db::report::{DatabaseOpenError, FailureView, OutcomeView, UpgradeOutcome, text_views};

verus! {

/// Where a run stands. `Begin` to `Abort` are the stages of the step in
/// progress; `Ready`, `FindVersionFailed` and `UpgradeFailed` end a run.
#[derive(Clone, Copy, Debug, PartialEq, Eq, Structural)]
pub enum Phase {
    /// Nothing was asked of the store yet.
    Opened,
    /// A transaction is to be begun for the next pending step.
    Begin,
    /// The operation at `index` of the step is to be applied.
    Apply { index: usize },
    /// The step's version is to be recorded in the ledger.
    Record,
    /// The transaction is to be committed.
    Commit,
    /// The transaction is to be aborted, after a failure inside it.
    Abort,
    /// The store is at the target version, or beyond it.
    Ready,
    /// The ledger could not be scanned.
    FindVersionFailed,
    /// A step failed; the steps before it stay in effect.
    UpgradeFailed,
}

/// The mathematical value of an `Action`.
pub enum ActionView {
    ScanLedger,
    Begin,
    Apply(OperationView),
    Record { version: u64 },
    Commit,
    Abort,
    Stop,
}

/// What the runner asks of the store next.
#[derive(Debug, PartialEq, Eq)]
pub enum Action {
    /// Scan the version ledger and hand over its rows.
    ScanLedger,
    /// Begin a transaction.
    Begin,
    /// Apply the operation inside the open transaction.
    Apply(Operation),
    /// Append `version`, with the present instant, to the ledger inside
    /// the open transaction.
    Record { version: u64 },
    /// Commit the open transaction.
    Commit,
    /// Abort the open transaction.
    Abort,
    /// Nothing: the run has ended.
    Stop,
}

impl View for Action {
    type V = ActionView;

    open spec fn view(&self) -> ActionView {
        match self {
            Action::ScanLedger => ActionView::ScanLedger,
            Action::Begin => ActionView::Begin,
            Action::Apply(operation) => ActionView::Apply(operation@),
            Action::Record { version } => ActionView::Record { version: *version },
            Action::Commit => ActionView::Commit,
            Action::Abort => ActionView::Abort,
            Action::Stop => ActionView::Stop,
        }
    }
}

impl ActionView {
    /// The statement that asks a store for the action, where versions are
    /// recorded with the instant `now`. `Stop` asks for nothing.
    pub open spec fn statement(self, now: u64) -> Seq<char> {
        match self {
            ActionView::ScanLedger => "SELECT version, timestamp FROM database_version;"@,
            ActionView::Begin => "BEGIN TRANSACTION;"@,
            ActionView::Apply(operation) => operation.statement(),
            ActionView::Record { version } => "CREATE database_version SET version = "@ + decimal(
                version as nat,
            ) + ", timestamp = "@ + decimal(now as nat) + ";"@,
            ActionView::Commit => "COMMIT TRANSACTION;"@,
            ActionView::Abort => "CANCEL TRANSACTION;"@,
            ActionView::Stop => Seq::empty(),
        }
    }
}

impl Action {
    /// The statement that asks a store for the action, where versions are
    /// recorded with the instant `now`. `Stop` asks for nothing.
    pub fn statement(&self, now: u64) -> (text: String)
        ensures
            text@ == self@.statement(now),
    {
        match self {
            Action::ScanLedger => String::from_str(
                "SELECT version, timestamp FROM database_version;",
            ),
            Action::Begin => String::from_str("BEGIN TRANSACTION;"),
            Action::Apply(operation) => operation.statement(),
            Action::Record { version } => {
                let mut text = String::from_str("CREATE database_version SET version = ");
                push_decimal(&mut text, *version);
                text.append(", timestamp = ");
                push_decimal(&mut text, now);
                text.append(";");
                text
            },
            Action::Commit => String::from_str("COMMIT TRANSACTION;"),
            Action::Abort => String::from_str("CANCEL TRANSACTION;"),
            Action::Stop => String::new(),
        }
    }
}

/// The mathematical value of an `Event`.
pub enum EventView {
    LedgerScanned(Seq<LedgerRow>),
    Succeeded,
    Failed,
}

/// What the store answered to the action that was asked of it.
#[derive(Debug, PartialEq, Eq)]
pub enum Event {
    /// The ledger was scanned; these are its rows. A store without a
    /// ledger answers with no rows.
    LedgerScanned(Vec<LedgerRow>),
    /// The action was carried out.
    Succeeded,
    /// The action failed.
    Failed,
}

impl View for Event {
    type V = EventView;

    open spec fn view(&self) -> EventView {
        match self {
            Event::LedgerScanned(rows) => EventView::LedgerScanned(rows@),
            Event::Succeeded => EventView::Succeeded,
            Event::Failed => EventView::Failed,
        }
    }
}

/// The mathematical value of a runner.
pub struct RunnerView {
    pub catalog: Seq<StepView>,
    pub target: nat,
    pub current: nat,
    pub phase: Phase,
    pub applied: Seq<Seq<char>>,
}

impl RunnerView {
    /// Whether the phase is a stage of a step in progress.
    pub open spec fn stepping(self) -> bool {
        match self.phase {
            Phase::Begin | Phase::Apply { .. } | Phase::Record | Phase::Commit | Phase::Abort => true,
            _ => false,
        }
    }

    /// The catalog is numbered without a gap and reaches the target; while
    /// a step is in progress it is the one after the current version; at
    /// the start the trace is empty.
    pub open spec fn wf(self) -> bool {
        &&& gap_free(self.catalog)
        &&& countable(self.catalog)
        &&& self.target <= self.catalog.len()
        &&& self.target <= u64::MAX
        &&& self.current <= u64::MAX
        &&& self.stepping() ==> self.current < self.target
        &&& self.phase == Phase::Opened ==> self.applied == Seq::<Seq<char>>::empty()
        &&& match self.phase {
            Phase::Apply { index } => index < self.step().operations.len(),
            _ => true,
        }
    }

    /// The step in progress: the one that leads on from the current version.
    pub open spec fn step(self) -> StepView
        recommends
            self.current < self.catalog.len(),
    {
        self.catalog[self.current as int]
    }

    /// The runner at the start of a run.
    pub open spec fn opened(catalog: Seq<StepView>, target: nat) -> RunnerView {
        RunnerView { catalog, target, current: 0, phase: Phase::Opened, applied: Seq::empty() }
    }

    /// What is asked of the store in this phase.
    pub open spec fn action(self) -> ActionView {
        match self.phase {
            Phase::Opened => ActionView::ScanLedger,
            Phase::Begin => ActionView::Begin,
            Phase::Apply { index } => ActionView::Apply(self.step().operations[index as int]),
            Phase::Record => ActionView::Record { version: (self.current + 1) as u64 },
            Phase::Commit => ActionView::Commit,
            Phase::Abort => ActionView::Abort,
            Phase::Ready | Phase::FindVersionFailed | Phase::UpgradeFailed => ActionView::Stop,
        }
    }

    /// The runner once the version `found` is known: ready where the store
    /// is at the target or beyond it, else about to begin the next step.
    pub open spec fn at_version(self, found: nat) -> RunnerView {
        RunnerView {
            current: found,
            phase: if found >= self.target {
                Phase::Ready
            } else {
                Phase::Begin
            },
            ..self
        }
    }

    /// The runner once the step in progress is committed.
    pub open spec fn committed(self) -> RunnerView {
        RunnerView {
            applied: self.applied.push(step_description(self.current + 1)),
            ..self.at_version(self.current + 1)
        }
    }

    /// The runner in another phase, all else unchanged.
    pub open spec fn in_phase(self, phase: Phase) -> RunnerView {
        RunnerView { phase, ..self }
    }

    /// The transition: the runner after the store answered `event` to the
    /// action of this phase. An answer that does not fit the action counts
    /// as its failure. A run that has ended stays as it is.
    pub open spec fn next(self, event: EventView) -> RunnerView {
        match self.phase {
            Phase::Opened => match event {
                EventView::LedgerScanned(rows) => self.at_version(highest_version(rows)),
                _ => self.in_phase(Phase::FindVersionFailed),
            },
            Phase::Begin => if event is Succeeded {
                if self.step().operations.len() == 0 {
                    self.in_phase(Phase::Record)
                } else {
                    self.in_phase(Phase::Apply { index: 0 })
                }
            } else {
                self.in_phase(Phase::UpgradeFailed)
            },
            Phase::Apply { index } => if event is Succeeded {
                if index + 1 < self.step().operations.len() {
                    self.in_phase(Phase::Apply { index: (index + 1) as usize })
                } else {
                    self.in_phase(Phase::Record)
                }
            } else {
                self.in_phase(Phase::Abort)
            },
            Phase::Record => if event is Succeeded {
                self.in_phase(Phase::Commit)
            } else {
                self.in_phase(Phase::Abort)
            },
            Phase::Commit => if event is Succeeded {
                self.committed()
            } else {
                self.in_phase(Phase::Abort)
            },
            Phase::Abort => self.in_phase(Phase::UpgradeFailed),
            Phase::Ready | Phase::FindVersionFailed | Phase::UpgradeFailed => self,
        }
    }

    /// What the run returned, once it has ended.
    pub open spec fn result(self) -> Option<Result<OutcomeView, FailureView>> {
        match self.phase {
            Phase::Ready => Some(
                Ok(OutcomeView { applied_steps: self.applied, final_version: self.current }),
            ),
            Phase::FindVersionFailed => Some(Err(FailureView::FindVersion)),
            Phase::UpgradeFailed => Some(
                Err(
                    FailureView::Upgrade {
                        current_version: self.current as u64,
                        target_version: self.target as u64,
                    },
                ),
            ),
            _ => None,
        }
    }
}

/// The migration runner.
#[derive(Debug)]
pub struct MigrationRunner {
    catalog: Catalog,
    target: u64,
    current: u64,
    phase: Phase,
    applied: Vec<String>,
}

impl View for MigrationRunner {
    type V = RunnerView;

    closed spec fn view(&self) -> RunnerView {
        RunnerView {
            catalog: self.catalog@,
            target: self.target as nat,
            current: self.current as nat,
            phase: self.phase,
            applied: text_views(self.applied@),
        }
    }
}

impl MigrationRunner {
    /// Whether the runner keeps its invariant.
    pub open spec fn wf(&self) -> bool {
        self@.wf()
    }

    /// A runner that takes a store to version `target` by the steps of
    /// `catalog`; `None` where the catalog has no step to that version.
    pub fn new(catalog: Catalog, target: u64) -> (runner: Option<MigrationRunner>)
        requires
            catalog.wf(),
        ensures
            runner is Some <==> target <= catalog@.len(),
            runner is Some ==> runner->Some_0@ == RunnerView::opened(catalog@, target as nat)
                && runner->Some_0.wf(),
    {
        if target > catalog.latest_version() {
            return None;
        }
        let runner = MigrationRunner {
            catalog,
            target,
            current: 0,
            phase: Phase::Opened,
            applied: Vec::new(),
        };
        proof {
            assert(runner@.applied =~= Seq::empty());
        }
        Some(runner)
    }

    /// Where the run stands.
    pub fn phase(&self) -> (phase: Phase)
        ensures
            phase == self@.phase,
    {
        self.phase
    }

    /// The version that the run is to reach.
    pub fn target_version(&self) -> (target: u64)
        ensures
            target == self@.target,
    {
        self.target
    }

    /// The version that the store is known to be at. Before the ledger was
    /// scanned it is 0.
    pub fn current_version(&self) -> (current: u64)
        ensures
            current == self@.current,
    {
        self.current
    }

    /// What is asked of the store next.
    pub fn next_action(&self) -> (action: Action)
        requires
            self.wf(),
        ensures
            action@ == self@.action(),
    {
        match self.phase {
            Phase::Opened => Action::ScanLedger,
            Phase::Begin => Action::Begin,
            Phase::Apply { index } => {
                match self.catalog.step(self.current + 1) {
                    Some(step) => match step.operation(index) {
                        Some(operation) => Action::Apply(operation.clone()),
                        None => Action::Stop,
                    },
                    None => Action::Stop,
                }
            },
            Phase::Record => Action::Record { version: self.current + 1 },
            Phase::Commit => Action::Commit,
            Phase::Abort => Action::Abort,
            Phase::Ready | Phase::FindVersionFailed | Phase::UpgradeFailed => Action::Stop,
        }
    }

    /// Takes the store's answer to the action that was asked last and moves
    /// on.
    pub fn advance(&mut self, event: Event)
        requires
            old(self).wf(),
        ensures
            final(self)@ == old(self)@.next(event@),
            final(self).wf(),
    {
        let succeeded = match &event {
            Event::Succeeded => true,
            _ => false,
        };
        match self.phase {
            Phase::Opened => match event {
                Event::LedgerScanned(rows) => {
                    let found = highest_of(&rows);
                    self.settle_at(found);
                },
                _ => {
                    self.phase = Phase::FindVersionFailed;
                },
            },
            Phase::Begin => {
                if succeeded {
                    let operations = match self.catalog.step(self.current + 1) {
                        Some(step) => step.len(),
                        None => 0,
                    };
                    if operations == 0 {
                        self.phase = Phase::Record;
                    } else {
                        self.phase = Phase::Apply { index: 0 };
                    }
                } else {
                    self.phase = Phase::UpgradeFailed;
                }
            },
            Phase::Apply { index } => {
                if succeeded {
                    let operations = match self.catalog.step(self.current + 1) {
                        Some(step) => step.len(),
                        None => 0,
                    };
                    if index + 1 < operations {
                        self.phase = Phase::Apply { index: index + 1 };
                    } else {
                        self.phase = Phase::Record;
                    }
                } else {
                    self.phase = Phase::Abort;
                }
            },
            Phase::Record => {
                if succeeded {
                    self.phase = Phase::Commit;
                } else {
                    self.phase = Phase::Abort;
                }
            },
            Phase::Commit => {
                if succeeded {
                    let ghost before = self@.applied;
                    let reached = self.current + 1;
                    self.applied.push(describe_step(reached));
                    self.settle_at(reached);
                    proof {
                        assert(self@.applied =~= before.push(step_description(reached as nat)));
                    }
                } else {
                    self.phase = Phase::Abort;
                }
            },
            Phase::Abort => {
                self.phase = Phase::UpgradeFailed;
            },
            Phase::Ready | Phase::FindVersionFailed | Phase::UpgradeFailed => {},
        }
    }

    /// Takes note that the store is at version `found`.
    fn settle_at(&mut self, found: u64)
        ensures
            final(self)@ == old(self)@.at_version(found as nat),
    {
        self.current = found;
        self.phase = if found >= self.target {
            Phase::Ready
        } else {
            Phase::Begin
        };
    }

    /// What the run returned, once it has ended; `None` while it goes on.
    pub fn finish(self) -> (result: Option<Result<UpgradeOutcome, DatabaseOpenError>>)
        ensures
            match result {
                Some(Ok(outcome)) => self@.result() == Some(
                    Ok::<OutcomeView, FailureView>(outcome@),
                ),
                Some(Err(failure)) => self@.result() == Some(
                    Err::<OutcomeView, FailureView>(failure@),
                ),
                None => self@.result() is None,
            },
    {
        match self.phase {
            Phase::Ready => Some(
                Ok(UpgradeOutcome { applied_steps: self.applied, final_version: self.current }),
            ),
            Phase::FindVersionFailed => Some(Err(DatabaseOpenError::FindVersion)),
            Phase::UpgradeFailed => Some(
                Err(
                    DatabaseOpenError::Upgrade {
                        current_version: self.current,
                        target_version: self.target,
                    },
                ),
            ),
            _ => None,
        }
    }
}

} // verus!
