//! Who may append to which log name.

use vstd::prelude::*;
use crate::account::AccountId;
use crate::byte_map::ByteMap;

verus! {

/// What a registry holds: for each log name that was ever written, its owners
/// in the order in which they were added.
pub type Owners = Map<Seq<u8>, Seq<AccountId>>;

/// Whether `identity` is among the owners of `name`. A name without an owner
/// list has no owners.
pub open spec fn owns(owners: Owners, name: Seq<u8>, identity: AccountId) -> bool {
    owners.contains_key(name) && owners[name].contains(identity)
}

/// The registry after `identity` was added to the owners of `name`.
pub open spec fn with_owner(owners: Owners, name: Seq<u8>, identity: AccountId) -> Owners {
    if owners.contains_key(name) {
        owners.insert(name, owners[name].push(identity))
    } else {
        owners.insert(name, seq![identity])
    }
}

/// A mapping from log name to the accounts that may append to it. Owner lists
/// only grow; an account may occur in one more than once, which changes nothing
/// that can be asked of the registry.
pub struct OwnershipRegistry {
    by_name: ByteMap<Vec<AccountId>>,
}

impl View for OwnershipRegistry {
    type V = Owners;

    closed spec fn view(&self) -> Owners {
        Map::new(|k: Seq<u8>| self.by_name@.contains_key(k), |k: Seq<u8>| self.by_name@[k]@)
    }
}

impl OwnershipRegistry {
    /// A registry without names.
    pub fn new() -> (registry: Self)
        ensures
            registry@ == Owners::empty(),
    {
        OwnershipRegistry { by_name: ByteMap::new() }
    }

    /// Tells whether `name` has an owner list, that is, whether it was ever written.
    pub fn is_known(&self, name: &Vec<u8>) -> (known: bool)
        ensures
            known == self@.contains_key(name@),
    {
        self.by_name.contains_key(name)
    }

    /// The owners of `name`, or `None` where the name was never written.
    pub fn owners_of(&self, name: &Vec<u8>) -> (owners: Option<Vec<AccountId>>)
        ensures
            match owners {
                Some(list) => self@.contains_key(name@) && list@ == self@[name@],
                None => !self@.contains_key(name@),
            },
    {
        match self.by_name.get(name) {
            Some(list) => Some(list.clone()),
            None => None,
        }
    }

    /// Tells whether `identity` is an owner of `name`.
    pub fn is_owner(&self, name: &Vec<u8>, identity: AccountId) -> (owner: bool)
        ensures
            owner == owns(self@, name@, identity),
    {
        match self.by_name.get(name) {
            Some(list) => {
                let mut i: usize = 0;
                while i < list.len()
                    invariant
                        i <= list@.len(),
                        self@.contains_key(name@),
                        self@[name@] == list@,
                        forall|j: int| 0 <= j < i ==> list@[j] != identity,
                    decreases list@.len() - i,
                {
                    if list[i] == identity {
                        return true;
                    }
                    i += 1;
                }
                false
            },
            None => false,
        }
    }

    /// Adds `identity` to the owners of `name`. A name without an owner list
    /// gets one that holds `identity` alone.
    pub fn add_owner(&mut self, name: Vec<u8>, identity: AccountId)
        ensures
            final(self)@ == with_owner(old(self)@, name@, identity),
    {
        let mut list: Vec<AccountId> = match self.by_name.remove(&name) {
            Some(list) => list,
            None => Vec::new(),
        };
        list.push(identity);
        self.by_name.insert(name, list);
    }
}

} // verus!
