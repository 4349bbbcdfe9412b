//! An in-memory store: schema artifacts, the version ledger, one
//! transaction at a time, and faults that a caller can plant.

use vstd::prelude::*;
use crate::db::catalog::{ArtifactKey, FieldKind, Operation, OperationView, operation_views};
use crate::db::ledger::{LedgerRow, SchemaVersion, VersionLedger, highest_of, highest_version};

verus! {

/// The call of a store at which a planted fault strikes.
#[derive(Clone, Copy, Debug, PartialEq, Eq, Structural)]
pub enum FaultSite {
    ReadLedger,
    Begin,
    Operation,
    Record,
    Commit,
}

/// A planted fault: the call at `site` fails once, after `skip` such calls
/// have passed, and the fault is then spent.
#[derive(Clone, Copy, Debug, PartialEq, Eq, Structural)]
pub struct Fault {
    pub site: FaultSite,
    pub skip: u64,
}

/// Why a call of the store failed.
#[derive(Clone, Copy, Debug, PartialEq, Eq, Structural)]
pub enum StoreError {
    /// The ledger could not be scanned.
    LedgerRead,
    /// The version record could not be written.
    LedgerWrite,
    /// No transaction could be begun.
    Begin,
    /// A schema operation failed.
    Operation,
    /// The transaction could not be committed.
    Commit,
}

/// What a planted fault does at a call at `site`: the fault that is left,
/// and whether the call fails.
pub open spec fn strike(fault: Option<Fault>, site: FaultSite) -> (Option<Fault>, bool) {
    match fault {
        Some(planted) => if planted.site != site {
            (fault, false)
        } else if planted.skip == 0 {
            (None, true)
        } else {
            (Some(Fault { site, skip: (planted.skip - 1) as u64 }), false)
        },
        None => (None, false),
    }
}

/// Whether one of the operations brought the artifact about.
pub open spec fn holds(schema: Seq<OperationView>, key: ArtifactKey) -> bool {
    exists|i: int| 0 <= i < schema.len() && (#[trigger] schema[i]).key() == key
}

/// No artifact stands twice.
pub open spec fn distinct(schema: Seq<OperationView>) -> bool {
    forall|i: int, j: int|
        0 <= i < j < schema.len() ==> (#[trigger] schema[i]).key() != (#[trigger] schema[j]).key()
}

/// The mathematical value of a store. `schema` holds the operations that
/// took effect, oldest first; inside a transaction `savepoint` holds the
/// lengths of `schema` and `ledger` at its beginning.
pub struct StoreState {
    pub schema: Seq<OperationView>,
    pub ledger: Seq<LedgerRow>,
    pub savepoint: Option<(nat, nat)>,
    pub fault: Option<Fault>,
}

impl StoreState {
    /// A store without artifacts, ledger rows, transaction or fault.
    pub open spec fn empty() -> StoreState {
        StoreState { schema: Seq::empty(), ledger: Seq::empty(), savepoint: None, fault: None }
    }

    /// No artifact stands twice, and a savepoint lies within what is held.
    pub open spec fn wf(self) -> bool {
        &&& distinct(self.schema)
        &&& match self.savepoint {
            Some((schema_len, ledger_len)) => schema_len <= self.schema.len() && ledger_len
                <= self.ledger.len(),
            None => true,
        }
    }

    /// Whether the store holds the artifact.
    pub open spec fn holds(self, key: ArtifactKey) -> bool {
        holds(self.schema, key)
    }

    /// Whether a transaction is open.
    pub open spec fn in_transaction(self) -> bool {
        self.savepoint is Some
    }

    /// The artifacts that an abort would leave.
    pub open spec fn committed_schema(self) -> Seq<OperationView> {
        match self.savepoint {
            Some((schema_len, _)) => self.schema.take(schema_len as int),
            None => self.schema,
        }
    }

    /// The ledger rows that an abort would leave.
    pub open spec fn committed_ledger(self) -> Seq<LedgerRow> {
        match self.savepoint {
            Some((_, ledger_len)) => self.ledger.take(ledger_len as int),
            None => self.ledger,
        }
    }

    /// The version that the committed ledger reports.
    pub open spec fn version(self) -> nat {
        highest_version(self.committed_ledger())
    }

    /// The store with `fault` planted in place of any earlier one.
    pub open spec fn with_fault(self, fault: Option<Fault>) -> StoreState {
        StoreState { fault, ..self }
    }

    /// Scanning the ledger: the committed rows, unless a fault strikes.
    pub open spec fn scan(self) -> (StoreState, Option<Seq<LedgerRow>>) {
        let (fault, failed) = strike(self.fault, FaultSite::ReadLedger);
        let next = StoreState { fault, ..self };
        if failed {
            (next, None)
        } else {
            (next, Some(self.committed_ledger()))
        }
    }

    /// Beginning a transaction. It fails inside a transaction, and where a
    /// fault strikes.
    pub open spec fn begin(self) -> (StoreState, bool) {
        if self.savepoint is Some {
            (self, false)
        } else {
            let (fault, failed) = strike(self.fault, FaultSite::Begin);
            if failed {
                (StoreState { fault, ..self }, false)
            } else {
                (
                    StoreState {
                        fault,
                        savepoint: Some((self.schema.len(), self.ledger.len())),
                        ..self
                    },
                    true,
                )
            }
        }
    }

    /// Applying one operation: its artifact is added unless the store holds
    /// it. It fails only where a fault strikes.
    pub open spec fn apply(self, operation: OperationView) -> (StoreState, bool) {
        let (fault, failed) = strike(self.fault, FaultSite::Operation);
        if failed {
            (StoreState { fault, ..self }, false)
        } else if self.holds(operation.key()) {
            (StoreState { fault, ..self }, true)
        } else {
            (StoreState { fault, schema: self.schema.push(operation), ..self }, true)
        }
    }

    /// Recording a version. It fails outside a transaction, and where a
    /// fault strikes.
    pub open spec fn record(self, version: u64, timestamp: u64) -> (StoreState, bool) {
        if self.savepoint is None {
            (self, false)
        } else {
            let (fault, failed) = strike(self.fault, FaultSite::Record);
            if failed {
                (StoreState { fault, ..self }, false)
            } else {
                (
                    StoreState {
                        fault,
                        ledger: self.ledger.push(
                            LedgerRow::of(SchemaVersion { version, timestamp }),
                        ),
                        ..self
                    },
                    true,
                )
            }
        }
    }

    /// Committing the transaction. It fails outside a transaction, and
    /// where a fault strikes; the transaction then stays open.
    pub open spec fn commit(self) -> (StoreState, bool) {
        if self.savepoint is None {
            (self, false)
        } else {
            let (fault, failed) = strike(self.fault, FaultSite::Commit);
            if failed {
                (StoreState { fault, ..self }, false)
            } else {
                (StoreState { fault, savepoint: None, ..self }, true)
            }
        }
    }

    /// Aborting the transaction: what it added is dropped. Outside a
    /// transaction nothing changes.
    pub open spec fn abort(self) -> StoreState {
        StoreState {
            schema: self.committed_schema(),
            ledger: self.committed_ledger(),
            savepoint: None,
            fault: self.fault,
        }
    }
}

/// An in-memory store.
pub struct MemoryStore {
    schema: Vec<Operation>,
    ledger: VersionLedger,
    savepoint: Option<(usize, usize)>,
    fault: Option<Fault>,
}

impl View for MemoryStore {
    type V = StoreState;

    closed spec fn view(&self) -> StoreState {
        StoreState {
            schema: operation_views(self.schema@),
            ledger: self.ledger@,
            savepoint: match self.savepoint {
                Some((schema_len, ledger_len)) => Some((schema_len as nat, ledger_len as nat)),
                None => None,
            },
            fault: self.fault,
        }
    }
}

impl MemoryStore {
    /// Whether the store keeps its invariant.
    pub open spec fn wf(&self) -> bool {
        self@.wf()
    }

    /// A fresh store: no artifact, an empty ledger, no fault.
    pub fn new() -> (store: MemoryStore)
        ensures
            store@ == StoreState::empty(),
            store.wf(),
    {
        let store = MemoryStore {
            schema: Vec::new(),
            ledger: VersionLedger::new(),
            savepoint: None,
            fault: None,
        };
        proof {
            assert(store@.schema =~= Seq::empty());
        }
        store
    }

    /// Plants `fault` in place of any earlier one; `None` clears it.
    pub fn plant_fault(&mut self, fault: Option<Fault>)
        ensures
            final(self)@ == old(self)@.with_fault(fault),
    {
        self.fault = fault;
    }

    /// The fault that is planted and not yet spent.
    pub fn planted_fault(&self) -> (fault: Option<Fault>)
        ensures
            fault == self@.fault,
    {
        self.fault
    }

    /// Whether a transaction is open.
    pub fn in_transaction(&self) -> (open: bool)
        ensures
            open == self@.in_transaction(),
    {
        self.savepoint.is_some()
    }

    /// The number of artifacts that the store holds.
    pub fn artifact_count(&self) -> (n: usize)
        ensures
            n == self@.schema.len(),
    {
        self.schema.len()
    }

    /// The ledger as the store holds it, rows of an open transaction
    /// included.
    pub fn ledger(&self) -> (ledger: &VersionLedger)
        ensures
            ledger@ == self@.ledger,
    {
        &self.ledger
    }

    /// Whether the store holds the artifact that `operation` brings about.
    pub fn holds_artifact(&self, operation: &Operation) -> (held: bool)
        ensures
            held == self@.holds(operation@.key()),
    {
        let mut i: usize = 0;
        while i < self.schema.len()
            invariant
                i <= self.schema.len(),
                forall|j: int| 0 <= j < i ==> (#[trigger] self@.schema[j]).key() != operation@.key(),
            decreases self.schema.len() - i,
        {
            if self.schema[i].same_artifact(operation) {
                proof {
                    assert(self@.schema[i as int].key() == operation@.key());
                }
                return true;
            }
            i += 1;
        }
        false
    }

    /// Whether the store holds a collection of that name.
    pub fn has_collection(&self, name: &str) -> (held: bool)
        ensures
            held == self@.holds(ArtifactKey::Collection { name: name@ }),
    {
        let probe = Operation::create_collection(name);
        self.holds_artifact(&probe)
    }

    /// Whether the store holds a definition of that field.
    pub fn has_field(&self, collection: &str, field: &str) -> (held: bool)
        ensures
            held == self@.holds(ArtifactKey::Field { collection: collection@, field: field@ }),
    {
        let probe = Operation::define_field(collection, field, FieldKind::Int, false);
        self.holds_artifact(&probe)
    }

    /// Whether the store holds reference data under that key.
    pub fn has_seed(&self, collection: &str, key: &str) -> (held: bool)
        ensures
            held == self@.holds(ArtifactKey::Seed { collection: collection@, key: key@ }),
    {
        let probe = Operation::seed_reference_data(collection, key, "");
        self.holds_artifact(&probe)
    }

    /// Lets a planted fault act on a call at `site`.
    fn strike(&mut self, site: FaultSite) -> (failed: bool)
        ensures
            (final(self).fault, failed) == strike(old(self).fault, site),
            final(self).schema == old(self).schema,
            final(self).ledger == old(self).ledger,
            final(self).savepoint == old(self).savepoint,
    {
        match self.fault {
            Some(planted) => {
                if planted.site != site {
                    false
                } else if planted.skip == 0 {
                    self.fault = None;
                    true
                } else {
                    self.fault = Some(Fault { site, skip: planted.skip - 1 });
                    false
                }
            },
            None => false,
        }
    }

    /// Scans the ledger: a copy of its committed rows, malformed ones
    /// included.
    pub fn scan_ledger(&mut self) -> (rows: Result<Vec<LedgerRow>, StoreError>)
        requires
            old(self).wf(),
        ensures
            final(self).wf(),
            final(self)@ == old(self)@.scan().0,
            match rows {
                Ok(rows) => old(self)@.scan().1 == Some(rows@),
                Err(error) => old(self)@.scan().1 is None && error == StoreError::LedgerRead,
            },
    {
        if self.strike(FaultSite::ReadLedger) {
            Err(StoreError::LedgerRead)
        } else {
            match self.savepoint {
                Some((_, ledger_len)) => Ok(self.ledger.first_rows(ledger_len)),
                None => Ok(self.ledger.rows()),
            }
        }
    }

    /// The highest version that the committed ledger holds, or 0 where it
    /// holds none.
    pub fn current_version(&mut self) -> (version: Result<u64, StoreError>)
        requires
            old(self).wf(),
        ensures
            final(self).wf(),
            final(self)@ == old(self)@.scan().0,
            match version {
                Ok(version) => old(self)@.scan().1 is Some && version == old(self)@.version(),
                Err(error) => old(self)@.scan().1 is None && error == StoreError::LedgerRead,
            },
    {
        match self.scan_ledger() {
            Ok(rows) => Ok(highest_of(&rows)),
            Err(error) => Err(error),
        }
    }

    /// Begins a transaction.
    pub fn begin(&mut self) -> (begun: Result<(), StoreError>)
        requires
            old(self).wf(),
        ensures
            final(self).wf(),
            final(self)@ == old(self)@.begin().0,
            begun is Ok <==> old(self)@.begin().1,
            begun is Err ==> begun == Err::<(), StoreError>(StoreError::Begin),
    {
        if self.savepoint.is_some() {
            return Err(StoreError::Begin);
        }
        if self.strike(FaultSite::Begin) {
            return Err(StoreError::Begin);
        }
        self.savepoint = Some((self.schema.len(), self.ledger.len()));
        Ok(())
    }

    /// Applies one operation: adds its artifact unless the store holds it.
    pub fn apply(&mut self, operation: &Operation) -> (applied: Result<(), StoreError>)
        requires
            old(self).wf(),
        ensures
            final(self).wf(),
            final(self)@ == old(self)@.apply(operation@).0,
            applied is Ok <==> old(self)@.apply(operation@).1,
            applied is Err ==> applied == Err::<(), StoreError>(StoreError::Operation),
    {
        if self.strike(FaultSite::Operation) {
            return Err(StoreError::Operation);
        }
        if !self.holds_artifact(operation) {
            let ghost before = self@.schema;
            self.schema.push(operation.clone());
            proof {
                assert(self@.schema =~= before.push(operation@));
            }
        }
        Ok(())
    }

    /// Appends a version record to the ledger, inside the open transaction.
    pub fn record(&mut self, version: u64, timestamp: u64) -> (recorded: Result<(), StoreError>)
        requires
            old(self).wf(),
        ensures
            final(self).wf(),
            final(self)@ == old(self)@.record(version, timestamp).0,
            recorded is Ok <==> old(self)@.record(version, timestamp).1,
            recorded is Err ==> recorded == Err::<(), StoreError>(StoreError::LedgerWrite),
    {
        if self.savepoint.is_none() {
            return Err(StoreError::LedgerWrite);
        }
        if self.strike(FaultSite::Record) {
            return Err(StoreError::LedgerWrite);
        }
        self.ledger.record(version, timestamp);
        Ok(())
    }

    /// Commits the open transaction.
    pub fn commit(&mut self) -> (committed: Result<(), StoreError>)
        requires
            old(self).wf(),
        ensures
            final(self).wf(),
            final(self)@ == old(self)@.commit().0,
            committed is Ok <==> old(self)@.commit().1,
            committed is Err ==> committed == Err::<(), StoreError>(StoreError::Commit),
    {
        if self.savepoint.is_none() {
            return Err(StoreError::Commit);
        }
        if self.strike(FaultSite::Commit) {
            return Err(StoreError::Commit);
        }
        self.savepoint = None;
        Ok(())
    }

    /// Aborts the open transaction, dropping what it added.
    pub fn abort(&mut self)
        requires
            old(self).wf(),
        ensures
            final(self).wf(),
            final(self)@ == old(self)@.abort(),
    {
        match self.savepoint {
            Some((schema_len, ledger_len)) => {
                let ghost before = self@.schema;
                self.schema.truncate(schema_len);
                self.ledger.truncate(ledger_len);
                self.savepoint = None;
                proof {
                    assert(self@.schema =~= before.take(schema_len as int));
                }
            },
            None => {},
        }
    }
}

} // verus!
