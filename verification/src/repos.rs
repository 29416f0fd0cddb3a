//! What storage reports back to the services, and what its atomic workflow
//! operations return.

use vstd::prelude::*;

use crate::contributions::VaultLedgerEntry;
use crate::json::JsonValue;
use crate::records::{
    Contribution, PayoutRequest, SavingsVault, ScholarshipApplication, ScholarshipAward,
    ScholarshipPool,
};
use crate::text::{owned, push_text, str_eq};

verus! {

/// Failures reported by storage.
#[derive(Debug)]
pub enum PersistenceError {
    NotFound,
    Conflict(String),
    Validation(String),
    Repository(String),
}

impl PersistenceError {
    pub open spec fn spec_message(&self) -> Seq<char> {
        match self {
            PersistenceError::NotFound => "not found"@,
            PersistenceError::Conflict(m) => "conflict: "@ + m@,
            PersistenceError::Validation(m) => "validation: "@ + m@,
            PersistenceError::Repository(m) => "repository: "@ + m@,
        }
    }

    /// The text shown for this error.
    pub fn message(&self) -> (m: String)
        ensures
            m@ == self.spec_message(),
    {
        match self {
            PersistenceError::NotFound => owned("not found"),
            PersistenceError::Conflict(x) => {
                let mut s = owned("conflict: ");
                push_text(&mut s, x.as_str());
                s
            },
            PersistenceError::Validation(x) => {
                let mut s = owned("validation: ");
                push_text(&mut s, x.as_str());
                s
            },
            PersistenceError::Repository(x) => {
                let mut s = owned("repository: ");
                push_text(&mut s, x.as_str());
                s
            },
        }
    }
}

/// What settling a contribution stored.
#[derive(Debug)]
pub struct ContributionSettlementResult {
    pub contribution: Contribution,
    pub ledger_entry: Option<VaultLedgerEntry>,
    pub vault: SavingsVault,
}

/// What a payout transition stored.
#[derive(Debug)]
pub struct PayoutTransitionResult {
    pub payout: PayoutRequest,
    pub vault: SavingsVault,
}

/// What a scholarship decision stored.
#[derive(Debug)]
pub struct ScholarshipReviewDecisionResult {
    pub application: ScholarshipApplication,
    pub award: ScholarshipAward,
    pub pool: ScholarshipPool,
}

/// An empty JSON object.
pub fn empty_metadata() -> (v: JsonValue)
    ensures
        v matches JsonValue::Object(entries) && entries@.len() == 0,
{
    JsonValue::Object(Vec::new())
}

/// The storage failure for a database error: a unique-constraint violation
/// (SQLSTATE `23505`) is a conflict carrying the database's message, anything
/// else a repository failure carrying the error's text.
pub fn storage_failure(sqlstate: Option<&str>, database_message: &str, error_text: &str) -> (e: PersistenceError)
    ensures
        match sqlstate {
            Some(code) if code@ == "23505"@ => e matches PersistenceError::Conflict(m) && m@ == database_message@,
            _ => e matches PersistenceError::Repository(m) && m@ == error_text@,
        },
{
    match sqlstate {
        Some(code) => {
            if str_eq(code, "23505") {
                return PersistenceError::Conflict(owned(database_message));
            }
            PersistenceError::Repository(owned(error_text))
        },
        None => PersistenceError::Repository(owned(error_text)),
    }
}

} // verus!
