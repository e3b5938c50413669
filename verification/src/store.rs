//! The system of record: entries kept under a two-part key, in append order.

use vstd::prelude::*;
use crate::account::AccountId;
use crate::byte_map::ByteMap;
use crate::entry::{views, AuditLog, AuditLogView};

verus! {

/// The key of a bucket: a log name and a log date.
pub type BucketKey = (Seq<u8>, Seq<u8>);

/// What a store holds: for each key that was written, its entries in append order.
pub type Buckets = Map<BucketKey, Seq<AuditLogView<AccountId>>>;

/// The entries under `(name, date)`; none where nothing was ever written there.
pub open spec fn bucket_of(buckets: Buckets, name: Seq<u8>, date: Seq<u8>) -> Seq<
    AuditLogView<AccountId>,
> {
    if buckets.contains_key((name, date)) {
        buckets[(name, date)]
    } else {
        Seq::empty()
    }
}

/// The store after `entry` was appended under `(name, date)`.
pub open spec fn appended(
    buckets: Buckets,
    name: Seq<u8>,
    date: Seq<u8>,
    entry: AuditLogView<AccountId>,
) -> Buckets {
    buckets.insert((name, date), bucket_of(buckets, name, date).push(entry))
}

/// A mapping from (log name, log date) to an ordered collection of entries.
/// Entries are only ever added, at the end of their bucket.
pub struct LedgerStore {
    by_name: ByteMap<ByteMap<Vec<AuditLog<AccountId>>>>,
}

impl View for LedgerStore {
    type V = Buckets;

    closed spec fn view(&self) -> Buckets {
        Map::new(
            |k: BucketKey| self.by_name@.contains_key(k.0) && self.by_name@[k.0]@.contains_key(k.1),
            |k: BucketKey| views(self.by_name@[k.0]@[k.1]@),
        )
    }
}

impl LedgerStore {
    /// A store without entries.
    pub fn new() -> (store: Self)
        ensures
            store@ == Buckets::empty(),
    {
        LedgerStore { by_name: ByteMap::new() }
    }

    /// The bucket under `(name, date)`, if one was ever written.
    pub fn bucket(&self, name: &Vec<u8>, date: &Vec<u8>) -> (found: Option<
        &Vec<AuditLog<AccountId>>,
    >)
        ensures
            match found {
                Some(entries) => self@.contains_key((name@, date@)) && views(entries@) == self@[(
                    name@,
                    date@,
                )],
                None => !self@.contains_key((name@, date@)),
            },
    {
        match self.by_name.get(name) {
            Some(by_date) => by_date.get(date),
            None => None,
        }
    }

    /// A copy of the entries under `(name, date)`, in append order. A bucket
    /// that was never written reads as empty.
    pub fn get(&self, name: &Vec<u8>, date: &Vec<u8>) -> (entries: Vec<AuditLog<AccountId>>)
        ensures
            views(entries@) == bucket_of(self@, name@, date@),
    {
        let mut entries: Vec<AuditLog<AccountId>> = Vec::new();
        if let Some(stored) = self.bucket(name, date) {
            let mut i: usize = 0;
            while i < stored.len()
                invariant
                    i <= stored@.len(),
                    views(entries@) == views(stored@).subrange(0, i as int),
                decreases stored@.len() - i,
            {
                let ghost copied = views(entries@);
                let entry = stored[i].clone();
                entries.push(entry);
                assert(views(entries@) =~= copied.push(stored@[i as int]@));
                i += 1;
            }
        }
        entries
    }

    /// Adds `entry` at the end of the bucket under `(name, date)`; the bucket
    /// is created if it is not there yet. No other bucket changes.
    pub fn append(&mut self, name: Vec<u8>, date: Vec<u8>, entry: AuditLog<AccountId>)
        ensures
            final(self)@ == appended(old(self)@, name@, date@, entry@),
    {
        let ghost before = self@;
        let mut by_date = match self.by_name.remove(&name) {
            Some(m) => m,
            None => ByteMap::new(),
        };
        let mut entries: Vec<AuditLog<AccountId>> = match by_date.remove(&date) {
            Some(e) => e,
            None => Vec::new(),
        };
        assert(views(entries@) =~= bucket_of(before, name@, date@));
        let ghost stored = views(entries@);
        entries.push(entry);
        assert(views(entries@) =~= stored.push(entry@));
        by_date.insert(date, entries);
        self.by_name.insert(name, by_date);
    }
}

} // verus!
