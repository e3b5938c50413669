//! The ledger service: appends, the claim workflow and paginated reads over
//! one store, one ownership registry and one claim registry.

use vstd::prelude::*;
use crate::account::{account_of, decode_account, AccountId};
use crate::bytes::bytes_clone;
use crate::claims::ClaimRegistry;
use crate::entry::{views, AuditLog, AuditLogOpenForClaim};
use crate::error::Error;
use crate::laws::{
    law_accept_is_additive, law_accept_keeps_valid, law_append_keeps_valid, law_first_writer_owns,
    law_genesis_is_valid, law_open_keeps_valid, law_validity_is_of_the_records,
};
use crate::model::{entry_of, EventView, LedgerState};
use crate::owners::OwnershipRegistry;
use crate::pagination::{page_of, paginate};
use crate::store::LedgerStore;

verus! {

/// The logical time of a ledger whose host has not set one.
pub const GENESIS_TIME: u64 = 123_456_789;

/// A notification of a successful operation, for the host to pass on.
#[derive(Debug, PartialEq, Eq)]
pub enum Event {
    /// An entry was appended under (log name, log date) by the account.
    LogAppended(Vec<u8>, Vec<u8>, AccountId),
    /// The account accepted the pending claim on the log name.
    ClaimAccepted(Vec<u8>, AccountId),
    /// The account opened the log name for a claim.
    ClaimOpened(Vec<u8>, AccountId),
}

impl View for Event {
    type V = EventView;

    open spec fn view(&self) -> EventView {
        match *self {
            Event::LogAppended(name, date, who) => EventView::LogAppended(name@, date@, who),
            Event::ClaimAccepted(name, who) => EventView::ClaimAccepted(name@, who),
            Event::ClaimOpened(name, who) => EventView::ClaimOpened(name@, who),
        }
    }
}

/// The plain values of a list of notifications, in the same order.
pub open spec fn event_views(events: Seq<Event>) -> Seq<EventView> {
    events.map_values(|e: Event| e@)
}

/// The ledger. Each operation runs to its end on the whole ledger before the
/// next one starts, and one that is refused changes nothing. A ledger is
/// valid at all times, in the sense of `LedgerState::inv`.
pub struct Pallet {
    logs: LedgerStore,
    owners: OwnershipRegistry,
    claims: ClaimRegistry,
    events: Vec<Event>,
    now: u64,
}

impl View for Pallet {
    type V = LedgerState;

    closed spec fn view(&self) -> LedgerState {
        LedgerState {
            logs: self.logs@,
            owners: self.owners@,
            claims: self.claims@,
            events: event_views(self.events@),
            now: self.now,
        }
    }
}

impl Pallet {
    /// The ledger is a valid one, as every ledger is that was reached from an
    /// empty one.
    #[verifier::type_invariant]
    closed spec fn valid(&self) -> bool {
        self@.inv()
    }

    /// A ledger on which nothing has happened yet.
    pub fn new() -> (ledger: Self)
        ensures
            ledger@ == LedgerState::genesis(GENESIS_TIME),
            ledger@.inv(),
    {
        proof {
            law_genesis_is_valid(GENESIS_TIME);
        }
        let ledger = Pallet {
            logs: LedgerStore::new(),
            owners: OwnershipRegistry::new(),
            claims: ClaimRegistry::new(),
            events: Vec::new(),
            now: GENESIS_TIME,
        };
        assert(event_views(ledger.events@) =~= Seq::empty());
        ledger
    }

    /// Moves the ledger out, and leaves an empty one in its place. An
    /// operation changes the parts of the ledger that it took out, one after
    /// the other, and puts the whole back; what stands in the ledger's place
    /// meanwhile is valid too.
    fn take(&mut self) -> (ledger: Pallet)
        ensures
            ledger@ == old(self)@,
    {
        let mut ledger = Pallet::new();
        core::mem::swap(self, &mut ledger);
        ledger
    }

    /// The logical time with which claims are stamped.
    pub fn time(&self) -> (now: u64)
        ensures
            now == self@.now,
    {
        self.now
    }

    /// Sets the logical time. Nothing else changes.
    pub fn set_time(&mut self, now: u64)
        ensures
            final(self)@ == (LedgerState { now, ..old(self)@ }),
            final(self)@.inv(),
    {
        proof {
            use_type_invariant(&*self);
            law_validity_is_of_the_records(self@, LedgerState { now, ..self@ });
        }
        self.now = now;
    }

    /// Appends an entry under `(log_file_name, log_date)` in the name of
    /// `sender`. The first append to a name makes its sender the owner; after
    /// that only owners may append.
    pub fn save_audit_log(
        &mut self,
        sender: AccountId,
        log_file_name: Vec<u8>,
        log_date: Vec<u8>,
        log_title: Vec<u8>,
        log_content: Vec<u8>,
        log_timestamp: Vec<u8>,
    ) -> (outcome: Result<(), Error>)
        ensures
            outcome == old(self)@.append_outcome(log_file_name@, sender),
            final(self)@ == old(self)@.append_log(
                sender,
                log_file_name@,
                log_date@,
                log_title@,
                log_content@,
                log_timestamp@,
            ),
            final(self)@.inv(),
            outcome is Err ==> final(self)@ == old(self)@,
            !old(self)@.is_known(log_file_name@) ==> {
                &&& outcome is Ok
                &&& final(self)@.owners[log_file_name@] == seq![sender]
                &&& final(self)@.bucket(log_file_name@, log_date@) == seq![
                    entry_of(log_title@, log_content@, log_timestamp@, sender),
                ]
            },
            old(self)@.is_known(log_file_name@) && !old(self)@.is_owner(log_file_name@, sender)
                ==> outcome == Err::<(), Error>(Error::NotAnOwner),
    {
        proof {
            use_type_invariant(&*self);
            if !self@.is_known(log_file_name@) {
                law_first_writer_owns(
                    self@,
                    sender,
                    log_file_name@,
                    log_date@,
                    log_title@,
                    log_content@,
                    log_timestamp@,
                );
            }
            law_append_keeps_valid(
                self@,
                sender,
                log_file_name@,
                log_date@,
                log_title@,
                log_content@,
                log_timestamp@,
            );
        }
        let known = self.owners.is_known(&log_file_name);
        if known && !self.owners.is_owner(&log_file_name, sender) {
            return Err(Error::NotAnOwner);
        }
        let entry = AuditLog::new(log_title, log_content, log_timestamp, sender);
        let event = Event::LogAppended(bytes_clone(&log_file_name), bytes_clone(&log_date), sender);
        let Pallet { mut logs, mut owners, claims, mut events, now } = self.take();
        let ghost queued = event_views(events@);
        if !known {
            owners.add_owner(bytes_clone(&log_file_name), sender);
        }
        logs.append(log_file_name, log_date, entry);
        events.push(event);
        assert(event_views(events@) =~= queued.push(event@));
        *self = Pallet { logs, owners, claims, events, now };
        Ok(())
    }

    /// Makes `claimer` one more owner of `log_file_name`, if the pending
    /// claim on that name designates `claimer`. The claim is then gone; the
    /// owners that were there stay.
    pub fn claim_log(&mut self, claimer: AccountId, log_file_name: Vec<u8>) -> (outcome: Result<
        (),
        Error,
    >)
        ensures
            outcome == old(self)@.accept_outcome(log_file_name@, claimer),
            final(self)@ == old(self)@.accept_claim(claimer, log_file_name@),
            final(self)@.inv(),
            outcome is Err ==> final(self)@ == old(self)@,
            outcome is Ok ==> {
                &&& final(self)@.is_owner(log_file_name@, claimer)
                &&& !final(self)@.claims.contains_key(log_file_name@)
                &&& forall|who: AccountId|
                    old(self)@.is_owner(log_file_name@, who) ==> #[trigger] final(self)@.is_owner(
                        log_file_name@,
                        who,
                    )
            },
    {
        proof {
            use_type_invariant(&*self);
            law_accept_keeps_valid(self@, claimer, log_file_name@);
            if self@.accept_outcome(log_file_name@, claimer) is Ok {
                law_accept_is_additive(self@, claimer, log_file_name@);
            }
        }
        match self.claims.peek(&log_file_name) {
            None => Err(Error::NoOpenClaim),
            Some(claim) => {
                if claim.get_assigned_claimer() != claimer {
                    return Err(Error::NotTheAssignedClaimer);
                }
                let Pallet { logs, mut owners, mut claims, mut events, now } = self.take();
                let ghost queued = event_views(events@);
                owners.add_owner(bytes_clone(&log_file_name), claimer);
                let _ = claims.take(&log_file_name);
                let event = Event::ClaimAccepted(log_file_name, claimer);
                events.push(event);
                assert(event_views(events@) =~= queued.push(event@));
                *self = Pallet { logs, owners, claims, events, now };
                Ok(())
            },
        }
    }

    /// Opens `log_file_name` for a claim by `claimer`, at the request of
    /// `sender`, who must own the name. A name has at most one pending claim.
    /// Whether `claimer` is an account that anyone knows is not asked.
    pub fn open_for_claim(
        &mut self,
        sender: AccountId,
        log_file_name: Vec<u8>,
        claimer: AccountId,
    ) -> (outcome: Result<(), Error>)
        ensures
            outcome == old(self)@.open_outcome(log_file_name@, sender),
            final(self)@ == old(self)@.open_for_claim(sender, log_file_name@, claimer),
            final(self)@.inv(),
            outcome is Err ==> final(self)@ == old(self)@,
            old(self)@.claims.contains_key(log_file_name@) ==> outcome is Err,
            old(self)@.claims.contains_key(log_file_name@) && old(self)@.is_owner(
                log_file_name@,
                sender,
            ) ==> outcome == Err::<(), Error>(Error::AlreadyOpenForClaim),
    {
        proof {
            use_type_invariant(&*self);
            law_open_keeps_valid(self@, sender, log_file_name@, claimer);
        }
        if !self.owners.is_known(&log_file_name) {
            return Err(Error::UnknownLog);
        }
        if !self.owners.is_owner(&log_file_name, sender) {
            return Err(Error::NotAnOwner);
        }
        let event = Event::ClaimOpened(bytes_clone(&log_file_name), sender);
        let Pallet { logs, owners, mut claims, mut events, now } = self.take();
        let ghost queued = event_views(events@);
        let outcome = claims.open(log_file_name, claimer, now);
        if outcome.is_ok() {
            events.push(event);
            assert(event_views(events@) =~= queued.push(event@));
        }
        *self = Pallet { logs, owners, claims, events, now };
        outcome
    }

    /// Opens `log_file_name` for a claim by the account that `claimer_pubkey`
    /// decodes to, at the request of `sender`.
    pub fn open_log_for_ownership_claim(
        &mut self,
        sender: AccountId,
        log_file_name: Vec<u8>,
        claimer_pubkey: [u8; 32],
    ) -> (outcome: Result<(), Error>)
        ensures
            outcome == old(self)@.open_outcome(log_file_name@, sender),
            final(self)@ == old(self)@.open_for_claim(
                sender,
                log_file_name@,
                account_of(claimer_pubkey@),
            ),
            final(self)@.inv(),
    {
        let claimer = decode_account(claimer_pubkey.as_slice());
        self.open_for_claim(sender, log_file_name, claimer)
    }

    /// A copy of the entries under `(log_file_name, log_date)`, in append
    /// order; empty where nothing was written there.
    pub fn retrieve_audit_log(&self, log_file_name: Vec<u8>, log_date: Vec<u8>) -> (entries: Vec<
        AuditLog<AccountId>,
    >)
        ensures
            views(entries@) == self@.bucket(log_file_name@, log_date@),
    {
        self.logs.get(&log_file_name, &log_date)
    }

    /// One page of the entries under `(log_file_name, log_date)`, with
    /// `max_result_count` entries to a page; empty where nothing was written
    /// there, and beyond the last entry.
    pub fn retrieve_paginated_audit_logs(
        &self,
        log_file_name: Vec<u8>,
        log_date: Vec<u8>,
        max_result_count: u32,
        selected_page_num: u32,
    ) -> (page: Vec<AuditLog<AccountId>>)
        ensures
            views(page@) == page_of(
                self@.bucket(log_file_name@, log_date@),
                max_result_count,
                selected_page_num,
            ),
            !self@.logs.contains_key((log_file_name@, log_date@)) ==> page@.len() == 0,
    {
        match self.logs.bucket(&log_file_name, &log_date) {
            Some(entries) => paginate(entries, max_result_count, selected_page_num),
            None => {
                let page: Vec<AuditLog<AccountId>> = Vec::new();
                assert(views(page@) =~= page_of(
                    Seq::<crate::entry::AuditLogView<AccountId>>::empty(),
                    max_result_count,
                    selected_page_num,
                ));
                page
            },
        }
    }

    /// The owners of `log_file_name`, in the order in which they were added;
    /// `None` where the name was never written.
    pub fn retrieve_audit_log_owner(&self, log_file_name: Vec<u8>) -> (owners: Option<
        Vec<AccountId>,
    >)
        ensures
            match owners {
                Some(list) => self@.is_known(log_file_name@) && list@ == self@.owners[log_file_name@],
                None => !self@.is_known(log_file_name@),
            },
    {
        self.owners.owners_of(&log_file_name)
    }

    /// Tells whether `who` may append to `log_file_name`.
    pub fn is_owner(&self, log_file_name: &Vec<u8>, who: AccountId) -> (owner: bool)
        ensures
            owner == self@.is_owner(log_file_name@, who),
    {
        self.owners.is_owner(log_file_name, who)
    }

    /// The pending claim on `log_file_name`, if there is one.
    pub fn retrieve_audit_log_open_for_claim(&self, log_file_name: Vec<u8>) -> (found: Option<
        AuditLogOpenForClaim<AccountId>,
    >)
        ensures
            match found {
                Some(claim) => self@.claims.contains_key(log_file_name@) && claim@
                    == self@.claims[log_file_name@],
                None => !self@.claims.contains_key(log_file_name@),
            },
    {
        self.claims.peek(&log_file_name)
    }

    /// Hands out the notifications that were queued since the last call,
    /// oldest first, and empties the queue. Nothing else changes.
    pub fn take_events(&mut self) -> (events: Vec<Event>)
        ensures
            event_views(events@) == old(self)@.events,
            final(self)@ == (LedgerState { events: Seq::empty(), ..old(self)@ }),
            final(self)@.inv(),
    {
        proof {
            use_type_invariant(&*self);
            law_validity_is_of_the_records(self@, LedgerState { events: Seq::empty(), ..self@ });
        }
        let Pallet { logs, owners, claims, events, now } = self.take();
        let queue: Vec<Event> = Vec::new();
        assert(event_views(queue@) =~= Seq::empty());
        *self = Pallet { logs, owners, claims, events: queue, now };
        events
    }
}

} // verus!
