//! The ledger as a mathematical state machine: what a ledger holds, and what
//! each operation makes of it. The contracts of the executable ledger are
//! stated over these definitions.

use vstd::prelude::*;
use crate::account::AccountId;
use crate::claims::{new_claim, Claims};
use crate::entry::AuditLogView;
use crate::error::Error;
use crate::owners::{owns, with_owner, Owners};
use crate::store::{appended, bucket_of, Buckets};

verus! {

/// A notification of a successful operation, as plain values.
pub ghost enum EventView {
    /// An entry was appended under (log name, log date) by the account.
    LogAppended(Seq<u8>, Seq<u8>, AccountId),
    /// The account accepted the pending claim on the log name.
    ClaimAccepted(Seq<u8>, AccountId),
    /// The account opened the log name for a claim.
    ClaimOpened(Seq<u8>, AccountId),
}

/// Everything that a ledger holds.
pub ghost struct LedgerState {
    /// The entries, by (log name, log date), in append order.
    pub logs: Buckets,
    /// The owners of each log name that was ever written.
    pub owners: Owners,
    /// The pending claim of each log name that has one.
    pub claims: Claims,
    /// The notifications that were emitted and not yet handed out, oldest first.
    pub events: Seq<EventView>,
    /// The logical time, which the host sets.
    pub now: u64,
}

/// One step of a ledger's history.
pub ghost enum Operation {
    /// An append under `(name, date)` asked for by `sender`.
    Append {
        sender: AccountId,
        name: Seq<u8>,
        date: Seq<u8>,
        title: Seq<u8>,
        content: Seq<u8>,
        timestamp: Seq<u8>,
    },
    /// `sender` asks to open `name` for a claim by `claimer`.
    Open { sender: AccountId, name: Seq<u8>, claimer: AccountId },
    /// `claimer` asks to accept the claim on `name`.
    Accept { claimer: AccountId, name: Seq<u8> },
    /// The host sets the logical time.
    SetTime { now: u64 },
    /// The host takes the queued notifications.
    TakeEvents,
}

/// The entry that an append by `sender` stores.
pub open spec fn entry_of(
    title: Seq<u8>,
    content: Seq<u8>,
    timestamp: Seq<u8>,
    sender: AccountId,
) -> AuditLogView<AccountId> {
    AuditLogView { title, content, timestamp, reporter: sender }
}

impl LedgerState {
    /// The ledger on which nothing has happened yet.
    pub open spec fn genesis(now: u64) -> LedgerState {
        LedgerState {
            logs: Map::empty(),
            owners: Map::empty(),
            claims: Map::empty(),
            events: Seq::empty(),
            now,
        }
    }

    /// Whether anything was ever written under `name`.
    pub open spec fn is_known(self, name: Seq<u8>) -> bool {
        self.owners.contains_key(name)
    }

    /// Whether `who` may append to `name`.
    pub open spec fn is_owner(self, name: Seq<u8>, who: AccountId) -> bool {
        owns(self.owners, name, who)
    }

    /// The entries under `(name, date)`, in append order.
    pub open spec fn bucket(self, name: Seq<u8>, date: Seq<u8>) -> Seq<AuditLogView<AccountId>> {
        bucket_of(self.logs, name, date)
    }

    /// How an append to `name` by `sender` ends: a name that nobody owns yet
    /// is free to take, an owned one is open to its owners alone.
    pub open spec fn append_outcome(self, name: Seq<u8>, sender: AccountId) -> Result<(), Error> {
        if !self.is_known(name) || self.is_owner(name, sender) {
            Ok(())
        } else {
            Err(Error::NotAnOwner)
        }
    }

    /// The ledger after an append: on success the entry stands at the end of
    /// its bucket, the sender owns the name if nobody did, and a notification
    /// is queued; on failure nothing has changed.
    pub open spec fn append_log(
        self,
        sender: AccountId,
        name: Seq<u8>,
        date: Seq<u8>,
        title: Seq<u8>,
        content: Seq<u8>,
        timestamp: Seq<u8>,
    ) -> LedgerState {
        if self.append_outcome(name, sender) is Ok {
            LedgerState {
                logs: appended(self.logs, name, date, entry_of(title, content, timestamp, sender)),
                owners: if self.is_known(name) {
                    self.owners
                } else {
                    with_owner(self.owners, name, sender)
                },
                events: self.events.push(EventView::LogAppended(name, date, sender)),
                ..self
            }
        } else {
            self
        }
    }

    /// How opening `name` for a claim ends when `sender` asks for it. The
    /// tests are made in this order: the name is known, the sender owns it,
    /// no claim is pending.
    pub open spec fn open_outcome(self, name: Seq<u8>, sender: AccountId) -> Result<(), Error> {
        if !self.is_known(name) {
            Err(Error::UnknownLog)
        } else if !self.is_owner(name, sender) {
            Err(Error::NotAnOwner)
        } else if self.claims.contains_key(name) {
            Err(Error::AlreadyOpenForClaim)
        } else {
            Ok(())
        }
    }

    /// The ledger after `sender` asked to open `name` for `claimer`: on
    /// success the claim is pending, stamped with the logical time, and a
    /// notification is queued; on failure nothing has changed.
    pub open spec fn open_for_claim(
        self,
        sender: AccountId,
        name: Seq<u8>,
        claimer: AccountId,
    ) -> LedgerState {
        if self.open_outcome(name, sender) is Ok {
            LedgerState {
                claims: self.claims.insert(name, new_claim(name, claimer, self.now)),
                events: self.events.push(EventView::ClaimOpened(name, sender)),
                ..self
            }
        } else {
            self
        }
    }

    /// How accepting the claim on `name` ends when `claimer` asks for it.
    pub open spec fn accept_outcome(self, name: Seq<u8>, claimer: AccountId) -> Result<(), Error> {
        if !self.claims.contains_key(name) {
            Err(Error::NoOpenClaim)
        } else if self.claims[name].assigned_claimer != claimer {
            Err(Error::NotTheAssignedClaimer)
        } else {
            Ok(())
        }
    }

    /// The ledger after `claimer` asked to accept the claim on `name`: on
    /// success the claimer is one more owner, the claim is gone, and a
    /// notification is queued; on failure nothing has changed.
    pub open spec fn accept_claim(self, claimer: AccountId, name: Seq<u8>) -> LedgerState {
        if self.accept_outcome(name, claimer) is Ok {
            LedgerState {
                owners: with_owner(self.owners, name, claimer),
                claims: self.claims.remove(name),
                events: self.events.push(EventView::ClaimAccepted(name, claimer)),
                ..self
            }
        } else {
            self
        }
    }

    /// The ledger after one step.
    pub open spec fn apply(self, op: Operation) -> LedgerState {
        match op {
            Operation::Append { sender, name, date, title, content, timestamp } => self.append_log(
                sender,
                name,
                date,
                title,
                content,
                timestamp,
            ),
            Operation::Open { sender, name, claimer } => self.open_for_claim(sender, name, claimer),
            Operation::Accept { claimer, name } => self.accept_claim(claimer, name),
            Operation::SetTime { now } => LedgerState { now, ..self },
            Operation::TakeEvents => LedgerState { events: Seq::empty(), ..self },
        }
    }

    /// The ledger after the steps of `history`, taken in their order.
    pub open spec fn run(self, history: Seq<Operation>) -> LedgerState
        decreases history.len(),
    {
        if history.len() == 0 {
            self
        } else {
            self.run(history.drop_last()).apply(history.last())
        }
    }

    /// What holds of every ledger that was reached from an empty one:
    /// entries stand only under owned names and were reported by an owner;
    /// no bucket and no owner list is empty; an owned name has entries;
    /// a claim is pending only on an owned name, and is filed under the name
    /// that it names.
    pub open spec fn inv(self) -> bool {
        &&& forall|k: (Seq<u8>, Seq<u8>)| #[trigger]
            self.logs.contains_key(k) ==> self.is_known(k.0) && self.logs[k].len() > 0
        &&& forall|k: (Seq<u8>, Seq<u8>), i: int|
            self.logs.contains_key(k) && 0 <= i < self.logs[k].len() ==> self.is_owner(
                k.0,
                (#[trigger] self.logs[k][i]).reporter,
            )
        &&& forall|n: Seq<u8>| #[trigger]
            self.owners.contains_key(n) ==> self.owners[n].len() > 0 && exists|d: Seq<u8>|
                self.logs.contains_key((n, d))
        &&& forall|n: Seq<u8>| #[trigger]
            self.claims.contains_key(n) ==> self.is_known(n) && self.claims[n].filename == n
    }
}

} // verus!
