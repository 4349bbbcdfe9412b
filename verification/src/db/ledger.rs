//! The version ledger: an append-only history of applied schema versions.

use vstd::prelude::*;

verus! {

/// A decoded ledger entry: a schema version and the instant it was applied.
#[derive(Clone, Copy, Debug, PartialEq, Eq, Structural)]
pub struct SchemaVersion {
    pub version: u64,
    pub timestamp: u64,
}

/// A ledger row as it is found in the store. A row that lacks either field
/// is malformed.
#[derive(Clone, Copy, Debug, PartialEq, Eq, Structural)]
pub struct LedgerRow {
    pub version: Option<u64>,
    pub timestamp: Option<u64>,
}

impl LedgerRow {
    /// The row that stands for `entry`.
    pub open spec fn of(entry: SchemaVersion) -> LedgerRow {
        LedgerRow { version: Some(entry.version), timestamp: Some(entry.timestamp) }
    }

    /// The entry that this row holds, if it is well formed.
    pub open spec fn entry(self) -> Option<SchemaVersion> {
        match (self.version, self.timestamp) {
            (Some(version), Some(timestamp)) => Some(SchemaVersion { version, timestamp }),
            _ => None,
        }
    }

    /// The well-formed row that records `version` at `timestamp`.
    pub fn new(version: u64, timestamp: u64) -> (row: LedgerRow)
        ensures
            row == LedgerRow::of(SchemaVersion { version, timestamp }),
    {
        LedgerRow { version: Some(version), timestamp: Some(timestamp) }
    }

    /// The entry that this row holds; `None` for a malformed row.
    pub fn decode(&self) -> (entry: Option<SchemaVersion>)
        ensures
            entry == self.entry(),
    {
        match (self.version, self.timestamp) {
            (Some(version), Some(timestamp)) => Some(SchemaVersion { version, timestamp }),
            _ => None,
        }
    }
}

/// The highest version among the well-formed rows, or 0 where there is none.
pub open spec fn highest_version(rows: Seq<LedgerRow>) -> nat
    decreases rows.len(),
{
    if rows.len() == 0 {
        0
    } else {
        let rest = highest_version(rows.drop_last());
        match rows.last().entry() {
            Some(entry) => if entry.version > rest { entry.version as nat } else { rest },
            None => rest,
        }
    }
}

/// The well-formed rows of `rows`, decoded, in their order.
pub open spec fn decoded(rows: Seq<LedgerRow>) -> Seq<SchemaVersion>
    decreases rows.len(),
{
    if rows.len() == 0 {
        Seq::empty()
    } else {
        let rest = decoded(rows.drop_last());
        match rows.last().entry() {
            Some(entry) => rest.push(entry),
            None => rest,
        }
    }
}

/// No well-formed row holds a version above `highest_version`.
pub proof fn lemma_highest_version_bounds(rows: Seq<LedgerRow>, i: int)
    requires
        0 <= i < rows.len(),
        rows[i].entry() is Some,
    ensures
        rows[i].entry().unwrap().version <= highest_version(rows),
    decreases rows.len(),
{
    if i < rows.len() - 1 {
        lemma_highest_version_bounds(rows.drop_last(), i);
    }
}

/// `highest_version` is 0 or the version of some well-formed row.
pub proof fn lemma_highest_version_attained(rows: Seq<LedgerRow>)
    ensures
        highest_version(rows) == 0 || exists|i: int|
            0 <= i < rows.len() && #[trigger] rows[i].entry() == Some(
                SchemaVersion {
                    version: highest_version(rows) as u64,
                    timestamp: rows[i].timestamp.unwrap(),
                },
            ),
        highest_version(rows) <= u64::MAX,
    decreases rows.len(),
{
    if rows.len() > 0 {
        let front = rows.drop_last();
        lemma_highest_version_attained(front);
        let rest = highest_version(front);
        if highest_version(rows) != 0 {
            if highest_version(rows) == rest {
                let i = choose|i: int|
                    0 <= i < front.len() && #[trigger] front[i].entry() == Some(
                        SchemaVersion {
                            version: rest as u64,
                            timestamp: front[i].timestamp.unwrap(),
                        },
                    );
                assert(rows[i] == front[i]);
            } else {
                let i = rows.len() - 1;
                assert(rows[i].entry() == Some(
                    SchemaVersion {
                        version: highest_version(rows) as u64,
                        timestamp: rows[i].timestamp.unwrap(),
                    },
                ));
            }
        }
    }
}

/// Appending a well-formed row raises the highest version to the larger of
/// the two.
pub proof fn lemma_highest_version_push(rows: Seq<LedgerRow>, entry: SchemaVersion)
    ensures
        highest_version(rows.push(LedgerRow::of(entry))) == if entry.version > highest_version(
            rows,
        ) {
            entry.version as nat
        } else {
            highest_version(rows)
        },
{
    assert(rows.push(LedgerRow::of(entry)).drop_last() =~= rows);
}

/// The append-only record of the schema versions that were applied.
pub struct VersionLedger {
    rows: Vec<LedgerRow>,
}

impl View for VersionLedger {
    type V = Seq<LedgerRow>;

    closed spec fn view(&self) -> Seq<LedgerRow> {
        self.rows@
    }
}

impl VersionLedger {
    /// An empty ledger: no migration was applied.
    pub fn new() -> (ledger: VersionLedger)
        ensures
            ledger@ == Seq::<LedgerRow>::empty(),
    {
        VersionLedger { rows: Vec::new() }
    }

    /// The ledger that holds `rows` as they were scanned, malformed rows
    /// included.
    pub fn from_rows(rows: Vec<LedgerRow>) -> (ledger: VersionLedger)
        ensures
            ledger@ == rows@,
    {
        VersionLedger { rows }
    }

    /// The number of rows, malformed ones included.
    pub fn len(&self) -> (n: usize)
        ensures
            n == self@.len(),
    {
        self.rows.len()
    }

    /// The highest recorded version, or 0 for a ledger without a well-formed
    /// row. Malformed rows are passed over.
    pub fn current_version(&self) -> (version: u64)
        ensures
            version == highest_version(self@),
    {
        highest_of(&self.rows)
    }

    /// Appends one entry. Earlier rows are left as they are.
    pub fn record(&mut self, version: u64, timestamp: u64)
        ensures
            final(self)@ == old(self)@.push(LedgerRow::of(SchemaVersion { version, timestamp })),
    {
        self.rows.push(LedgerRow::new(version, timestamp));
    }

    /// The well-formed entries, oldest first.
    pub fn entries(&self) -> (entries: Vec<SchemaVersion>)
        ensures
            entries@ == decoded(self@),
    {
        let mut entries: Vec<SchemaVersion> = Vec::new();
        let mut i: usize = 0;
        while i < self.rows.len()
            invariant
                i <= self.rows.len(),
                entries@ == decoded(self.rows@.take(i as int)),
            decreases self.rows.len() - i,
        {
            proof {
                assert(self.rows@.take(i + 1).drop_last() =~= self.rows@.take(i as int));
            }
            match self.rows[i].decode() {
                Some(entry) => entries.push(entry),
                None => {},
            }
            i += 1;
        }
        proof {
            assert(self.rows@.take(i as int) =~= self.rows@);
        }
        entries
    }

    /// A copy of the rows, oldest first.
    pub fn rows(&self) -> (rows: Vec<LedgerRow>)
        ensures
            rows@ == self@,
    {
        let rows = self.first_rows(self.rows.len());
        proof {
            assert(self@.take(self@.len() as int) =~= self@);
        }
        rows
    }

    /// A copy of the oldest `len` rows, oldest first.
    pub(crate) fn first_rows(&self, len: usize) -> (rows: Vec<LedgerRow>)
        requires
            len <= self@.len(),
        ensures
            rows@ == self@.take(len as int),
    {
        let mut rows: Vec<LedgerRow> = Vec::new();
        let mut i: usize = 0;
        while i < len
            invariant
                i <= len <= self.rows.len(),
                rows@ == self.rows@.take(i as int),
            decreases len - i,
        {
            rows.push(self.rows[i]);
            proof {
                assert(self.rows@.take(i + 1) =~= self.rows@.take(i as int).push(self.rows@[i as int]));
            }
            i += 1;
        }
        rows
    }

    /// Drops every row from position `len` on. Only a store that undoes a
    /// transaction shortens a ledger.
    pub(crate) fn truncate(&mut self, len: usize)
        requires
            len <= old(self)@.len(),
        ensures
            final(self)@ == old(self)@.take(len as int),
    {
        self.rows.truncate(len);
    }
}

/// The highest version among the well-formed rows of `rows`, or 0.
pub fn highest_of(rows: &Vec<LedgerRow>) -> (version: u64)
    ensures
        version == highest_version(rows@),
{
    let mut highest: u64 = 0;
    let mut i: usize = 0;
    while i < rows.len()
        invariant
            i <= rows.len(),
            highest == highest_version(rows@.take(i as int)),
        decreases rows.len() - i,
    {
        proof {
            assert(rows@.take(i + 1).drop_last() =~= rows@.take(i as int));
        }
        match rows[i].decode() {
            Some(entry) => {
                if entry.version > highest {
                    highest = entry.version;
                }
            },
            None => {},
        }
        i += 1;
    }
    proof {
        assert(rows@.take(i as int) =~= rows@);
    }
    highest
}

} // verus!
