//! The records that the ledger stores: audit log entries and pending claims.

use vstd::prelude::*;
use crate::bytes::{bytes_clone, bytes_eq, bytes_less, lex_less};

verus! {

/// One audit record. It is never changed once it has been stored.
#[derive(Debug, PartialEq, Eq)]
pub struct AuditLog<AccountId> {
    title: Vec<u8>,
    content: Vec<u8>,
    timestamp: Vec<u8>,
    reporter: AccountId,
}

/// What an audit record holds, as plain values.
pub ghost struct AuditLogView<AccountId> {
    pub title: Seq<u8>,
    pub content: Seq<u8>,
    pub timestamp: Seq<u8>,
    pub reporter: AccountId,
}

impl<AccountId> View for AuditLog<AccountId> {
    type V = AuditLogView<AccountId>;

    closed spec fn view(&self) -> AuditLogView<AccountId> {
        AuditLogView {
            title: self.title@,
            content: self.content@,
            timestamp: self.timestamp@,
            reporter: self.reporter,
        }
    }
}

/// The plain values of a list of audit records, in the same order.
pub open spec fn views<AccountId>(entries: Seq<AuditLog<AccountId>>) -> Seq<
    AuditLogView<AccountId>,
> {
    entries.map_values(|e: AuditLog<AccountId>| e@)
}

impl<T> AuditLog<T> {
    /// A record with the given fields.
    pub fn new(title: Vec<u8>, content: Vec<u8>, timestamp: Vec<u8>, reporter: T) -> (log: Self)
        ensures
            log@ == (AuditLogView {
                title: title@,
                content: content@,
                timestamp: timestamp@,
                reporter: reporter,
            }),
    {
        AuditLog { title, content, timestamp, reporter }
    }

    pub fn get_title(self) -> (title: Vec<u8>)
        ensures
            title@ == self@.title,
    {
        self.title
    }

    pub fn get_content(self) -> (content: Vec<u8>)
        ensures
            content@ == self@.content,
    {
        self.content
    }

    pub fn get_timestamp(self) -> (timestamp: Vec<u8>)
        ensures
            timestamp@ == self@.timestamp,
    {
        self.timestamp
    }

    pub fn get_reporter(self) -> (reporter: T)
        ensures
            reporter == self@.reporter,
    {
        self.reporter
    }

    /// Tells whether two records carry the same timestamp, byte for byte.
    pub fn same_timestamp(&self, other: &Self) -> (same: bool)
        ensures
            same == (self@.timestamp == other@.timestamp),
    {
        bytes_eq(&self.timestamp, &other.timestamp)
    }

    /// Tells whether this record's timestamp comes before the other's, as
    /// raw bytes in the order of a dictionary. A timestamp is not read as a
    /// date. Stored entries are not kept in this order but in that of their
    /// appends; a caller who wants them sorted sorts them.
    pub fn timestamp_precedes(&self, other: &Self) -> (before: bool)
        ensures
            before == lex_less(self@.timestamp, other@.timestamp),
    {
        bytes_less(&self.timestamp, &other.timestamp)
    }
}

impl<T: Copy> Clone for AuditLog<T> {
    fn clone(&self) -> (copy: Self)
        ensures
            copy@ == self@,
    {
        AuditLog {
            title: bytes_clone(&self.title),
            content: bytes_clone(&self.content),
            timestamp: bytes_clone(&self.timestamp),
            reporter: self.reporter,
        }
    }
}

/// A pending request that lets one designated account become an additional
/// owner of a log name.
#[derive(Debug, PartialEq, Eq)]
pub struct AuditLogOpenForClaim<AccountId> {
    filename: Vec<u8>,
    assigned_claimer: AccountId,
    opened_for_claim_timestamp: u64,
}

/// What a pending claim holds, as plain values.
pub ghost struct ClaimView<AccountId> {
    pub filename: Seq<u8>,
    pub assigned_claimer: AccountId,
    pub opened_for_claim_timestamp: u64,
}

impl<AccountId> View for AuditLogOpenForClaim<AccountId> {
    type V = ClaimView<AccountId>;

    closed spec fn view(&self) -> ClaimView<AccountId> {
        ClaimView {
            filename: self.filename@,
            assigned_claimer: self.assigned_claimer,
            opened_for_claim_timestamp: self.opened_for_claim_timestamp,
        }
    }
}

impl<T> AuditLogOpenForClaim<T> {
    /// A claim on `filename` for `assigned_claimer`, opened at the given time.
    pub fn new(filename: Vec<u8>, assigned_claimer: T, opened_for_claim_timestamp: u64) -> (claim:
        Self)
        ensures
            claim@ == (ClaimView {
                filename: filename@,
                assigned_claimer: assigned_claimer,
                opened_for_claim_timestamp: opened_for_claim_timestamp,
            }),
    {
        AuditLogOpenForClaim { filename, assigned_claimer, opened_for_claim_timestamp }
    }

    pub fn get_filename(self) -> (filename: Vec<u8>)
        ensures
            filename@ == self@.filename,
    {
        self.filename
    }

    pub fn get_assigned_claimer(self) -> (claimer: T)
        ensures
            claimer == self@.assigned_claimer,
    {
        self.assigned_claimer
    }

    pub fn get_opened_for_claim_timestamp(self) -> (opened_at: u64)
        ensures
            opened_at == self@.opened_for_claim_timestamp,
    {
        self.opened_for_claim_timestamp
    }
}

impl<T: Copy> Clone for AuditLogOpenForClaim<T> {
    fn clone(&self) -> (copy: Self)
        ensures
            copy@ == self@,
    {
        AuditLogOpenForClaim {
            filename: bytes_clone(&self.filename),
            assigned_claimer: self.assigned_claimer,
            opened_for_claim_timestamp: self.opened_for_claim_timestamp,
        }
    }
}

} // verus!
