//! What a migration run reports: its outcome, or why it failed.

use vstd::prelude::*;
use vstd::string::*;
use crate::db::catalog::step_description;
use crate::db::text::{decimal, push_decimal};

verus! {

/// The mathematical value of a `DatabaseOpenError`.
pub enum FailureView {
    Open(Seq<char>),
    FindVersion,
    Upgrade { current_version: u64, target_version: u64 },
}

/// Why no ready store could be handed over.
#[derive(Debug, PartialEq, Eq)]
pub enum DatabaseOpenError {
    /// The store could not be created or connected to; the driver's own
    /// words are kept.
    Open(String),
    /// The version ledger could not be scanned.
    FindVersion,
    /// A step on the way to `target_version` failed; the store is left,
    /// whole, at `current_version`.
    Upgrade { current_version: u64, target_version: u64 },
}

impl View for DatabaseOpenError {
    type V = FailureView;

    open spec fn view(&self) -> FailureView {
        match self {
            DatabaseOpenError::Open(cause) => FailureView::Open(cause@),
            DatabaseOpenError::FindVersion => FailureView::FindVersion,
            DatabaseOpenError::Upgrade { current_version, target_version } => FailureView::Upgrade {
                current_version: *current_version,
                target_version: *target_version,
            },
        }
    }
}

impl FailureView {
    /// The failure in words, with the versions it names and the driver's
    /// own words where there are any.
    pub open spec fn message(self) -> Seq<char> {
        match self {
            FailureView::Open(cause) => "could not open the store: "@ + cause,
            FailureView::FindVersion => "could not find the schema version of the store"@,
            FailureView::Upgrade { current_version, target_version } =>
                "could not upgrade the store from version "@ + decimal(current_version as nat)
                    + " to version "@ + decimal(target_version as nat),
        }
    }
}

impl DatabaseOpenError {
    /// The failure in words, with the versions it names and the driver's
    /// own words where there are any.
    pub fn message(&self) -> (text: String)
        ensures
            text@ == self@.message(),
    {
        match self {
            DatabaseOpenError::Open(cause) => {
                let mut text = String::from_str("could not open the store: ");
                text.append(cause.as_str());
                text
            },
            DatabaseOpenError::FindVersion => String::from_str(
                "could not find the schema version of the store",
            ),
            DatabaseOpenError::Upgrade { current_version, target_version } => {
                let mut text = String::from_str("could not upgrade the store from version ");
                push_decimal(&mut text, *current_version);
                text.append(" to version ");
                push_decimal(&mut text, *target_version);
                text
            },
        }
    }
}

/// The mathematical value of an `UpgradeOutcome`.
pub struct OutcomeView {
    pub applied_steps: Seq<Seq<char>>,
    pub final_version: nat,
}

/// The trace of one successful run: a line for each step that was applied,
/// in order, and the version that the store was left at.
#[derive(Debug, PartialEq, Eq)]
pub struct UpgradeOutcome {
    pub applied_steps: Vec<String>,
    pub final_version: u64,
}

/// The values of a sequence of texts, in their order.
pub open spec fn text_views(texts: Seq<String>) -> Seq<Seq<char>> {
    texts.map_values(|text: String| text@)
}

impl View for UpgradeOutcome {
    type V = OutcomeView;

    open spec fn view(&self) -> OutcomeView {
        OutcomeView {
            applied_steps: text_views(self.applied_steps@),
            final_version: self.final_version as nat,
        }
    }
}

/// The lines that report the steps from version `from` to version `to`.
pub open spec fn descriptions(from: nat, to: nat) -> Seq<Seq<char>> {
    if to <= from {
        Seq::empty()
    } else {
        Seq::new((to - from) as nat, |i: int| step_description((from + 1 + i) as nat))
    }
}

/// The mathematical value of what a run returns.
pub open spec fn result_view(result: Result<UpgradeOutcome, DatabaseOpenError>) -> Result<
    OutcomeView,
    FailureView,
> {
    match result {
        Ok(outcome) => Ok(outcome@),
        Err(failure) => Err(failure@),
    }
}

} // verus!
