//! Pending claims: at most one for each log name.

use vstd::prelude::*;
use crate::account::AccountId;
use crate::byte_map::ByteMap;
use crate::bytes::bytes_clone;
use crate::entry::{AuditLogOpenForClaim, ClaimView};
use crate::error::Error;

verus! {

/// What a registry holds: for each log name with a pending claim, that claim.
pub type Claims = Map<Seq<u8>, ClaimView<AccountId>>;

/// The claim that is recorded when `name` is opened for `claimer` at time `now`.
pub open spec fn new_claim(name: Seq<u8>, claimer: AccountId, now: u64) -> ClaimView<AccountId> {
    ClaimView { filename: name, assigned_claimer: claimer, opened_for_claim_timestamp: now }
}

/// A mapping from log name to its pending claim. A claim stays until it is
/// taken; nothing lets it expire.
pub struct ClaimRegistry {
    by_name: ByteMap<AuditLogOpenForClaim<AccountId>>,
}

impl View for ClaimRegistry {
    type V = Claims;

    closed spec fn view(&self) -> Claims {
        Map::new(|k: Seq<u8>| self.by_name@.contains_key(k), |k: Seq<u8>| self.by_name@[k]@)
    }
}

impl ClaimRegistry {
    /// A registry without claims.
    pub fn new() -> (registry: Self)
        ensures
            registry@ == Claims::empty(),
    {
        ClaimRegistry { by_name: ByteMap::new() }
    }

    /// Records a claim on `name` for `claimer`, opened at time `now`, unless
    /// the name has a pending claim already. Whether `claimer` is an account
    /// that anyone knows is not asked.
    pub fn open(&mut self, name: Vec<u8>, claimer: AccountId, now: u64) -> (outcome: Result<
        (),
        Error,
    >)
        ensures
            old(self)@.contains_key(name@) ==> outcome == Err::<(), Error>(
                Error::AlreadyOpenForClaim,
            ) && final(self)@ == old(self)@,
            !old(self)@.contains_key(name@) ==> outcome == Ok::<(), Error>(()) && final(self)@
                == old(self)@.insert(name@, new_claim(name@, claimer, now)),
    {
        if self.by_name.contains_key(&name) {
            return Err(Error::AlreadyOpenForClaim);
        }
        let claim = AuditLogOpenForClaim::new(bytes_clone(&name), claimer, now);
        self.by_name.insert(name, claim);
        Ok(())
    }

    /// Removes the pending claim on `name` and hands it out; `None` where
    /// there is none.
    pub fn take(&mut self, name: &Vec<u8>) -> (taken: Option<AuditLogOpenForClaim<AccountId>>)
        ensures
            final(self)@ == old(self)@.remove(name@),
            match taken {
                Some(claim) => old(self)@.contains_key(name@) && claim@ == old(self)@[name@],
                None => !old(self)@.contains_key(name@),
            },
    {
        self.by_name.remove(name)
    }

    /// A copy of the pending claim on `name`; the registry stays as it is.
    pub fn peek(&self, name: &Vec<u8>) -> (found: Option<AuditLogOpenForClaim<AccountId>>)
        ensures
            match found {
                Some(claim) => self@.contains_key(name@) && claim@ == self@[name@],
                None => !self@.contains_key(name@),
            },
    {
        match self.by_name.get(name) {
            Some(claim) => Some(claim.clone()),
            None => None,
        }
    }
}

} // verus!
