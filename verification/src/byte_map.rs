//! A finite map keyed by byte strings, kept as a list of slots with distinct keys.

use vstd::prelude::*;
use crate::bytes::bytes_eq;

verus! {

/// No key occurs in two slots.
spec fn distinct_keys<T>(slots: Seq<(Vec<u8>, T)>) -> bool {
    forall|i: int, j: int|
        0 <= i < j < slots.len() ==> (#[trigger] slots[i]).0@ != (#[trigger] slots[j]).0@
}

/// The slot that holds `key`, if there is one.
spec fn position<T>(slots: Seq<(Vec<u8>, T)>, key: Seq<u8>) -> Option<int> {
    if exists|i: int| 0 <= i < slots.len() && (#[trigger] slots[i]).0@ == key {
        Some(choose|i: int| 0 <= i < slots.len() && (#[trigger] slots[i]).0@ == key)
    } else {
        None
    }
}

/// The map that a list of slots stands for.
spec fn map_of<T>(slots: Seq<(Vec<u8>, T)>) -> Map<Seq<u8>, T> {
    Map::new(
        |k: Seq<u8>| position(slots, k) is Some,
        |k: Seq<u8>| slots[position(slots, k).unwrap()].1,
    )
}

/// With distinct keys, the map holds exactly what the slots hold.
proof fn lemma_map_of<T>(slots: Seq<(Vec<u8>, T)>)
    requires
        distinct_keys(slots),
    ensures
        forall|i: int|
            0 <= i < slots.len() ==> map_of(slots).contains_key((#[trigger] slots[i]).0@) && map_of(
                slots,
            )[slots[i].0@] == slots[i].1,
        forall|k: Seq<u8>| #[trigger]
            map_of(slots).contains_key(k) ==> 0 <= position(slots, k).unwrap() < slots.len()
                && slots[position(slots, k).unwrap()].0@ == k,
{
}

/// Finds the slot of `key` by a linear search.
fn find<T>(slots: &Vec<(Vec<u8>, T)>, key: &Vec<u8>) -> (found: Option<usize>)
    requires
        distinct_keys(slots@),
    ensures
        match found {
            Some(i) => i < slots@.len() && slots@[i as int].0@ == key@ && map_of(
                slots@,
            ).contains_key(key@) && map_of(slots@)[key@] == slots@[i as int].1,
            None => !map_of(slots@).contains_key(key@),
        },
{
    let mut i: usize = 0;
    while i < slots.len()
        invariant
            distinct_keys(slots@),
            i <= slots@.len(),
            forall|j: int| 0 <= j < i ==> (#[trigger] slots@[j]).0@ != key@,
        decreases slots@.len() - i,
    {
        if bytes_eq(&slots[i].0, key) {
            proof {
                lemma_map_of(slots@);
            }
            return Some(i);
        }
        i += 1;
    }
    proof {
        lemma_map_of(slots@);
    }
    None
}

/// A finite map from byte strings to values of type `T`.
///
/// The entries are kept in a vector in which no key occurs twice; the view is
/// the mathematical map that the vector stands for.
pub struct ByteMap<T> {
    slots: Vec<(Vec<u8>, T)>,
}

impl<T> View for ByteMap<T> {
    type V = Map<Seq<u8>, T>;

    closed spec fn view(&self) -> Map<Seq<u8>, T> {
        map_of(self.slots@)
    }
}

impl<T> ByteMap<T> {
    #[verifier::type_invariant]
    closed spec fn well_formed(&self) -> bool {
        distinct_keys(self.slots@)
    }

    /// The empty map.
    pub fn new() -> (m: Self)
        ensures
            m@ == Map::<Seq<u8>, T>::empty(),
    {
        ByteMap { slots: Vec::new() }
    }

    /// Tells whether `key` is in the map.
    pub fn contains_key(&self, key: &Vec<u8>) -> (present: bool)
        ensures
            present == self@.contains_key(key@),
    {
        proof {
            use_type_invariant(self);
        }
        find(&self.slots, key).is_some()
    }

    /// The value stored under `key`, if there is one.
    pub fn get(&self, key: &Vec<u8>) -> (value: Option<&T>)
        ensures
            match value {
                Some(v) => self@.contains_key(key@) && *v == self@[key@],
                None => !self@.contains_key(key@),
            },
    {
        proof {
            use_type_invariant(self);
        }
        match find(&self.slots, key) {
            Some(i) => Some(&self.slots[i].1),
            None => None,
        }
    }

    /// Stores `value` under `key`, in place of what was stored there.
    pub fn insert(&mut self, key: Vec<u8>, value: T)
        ensures
            final(self)@ == old(self)@.insert(key@, value),
    {
        proof {
            use_type_invariant(&*self);
        }
        let mut slots: Vec<(Vec<u8>, T)> = Vec::new();
        core::mem::swap(&mut self.slots, &mut slots);
        let ghost before = slots@;
        let ghost k = key@;
        let ghost at: int;
        match find(&slots, &key) {
            Some(i) => {
                slots.set(i, (key, value));
                proof {
                    at = i as int;
                }
            },
            None => {
                slots.push((key, value));
                proof {
                    at = before.len() as int;
                }
            },
        }
        proof {
            lemma_map_of(before);
            assert(distinct_keys(slots@));
            lemma_map_of(slots@);
            assert forall|q: Seq<u8>|
                map_of(slots@).contains_key(q) <==> map_of(before).insert(k, value).contains_key(
                    q,
                ) by {
                assert(slots@[at].0@ == k);
                if map_of(before).contains_key(q) && q != k {
                    let j = position(before, q).unwrap();
                    assert(slots@[j].0@ == q);
                }
                if map_of(slots@).contains_key(q) && q != k {
                    assert(before[position(slots@, q).unwrap()].0@ == q);
                }
            }
            assert forall|q: Seq<u8>| map_of(slots@).contains_key(q) implies map_of(slots@)[q]
                == map_of(before).insert(k, value)[q] by {
                assert(slots@[position(slots@, q).unwrap()].0@ == q);
            }
        }
        self.slots = slots;
    }

    /// Takes out what is stored under `key`, if anything is.
    pub fn remove(&mut self, key: &Vec<u8>) -> (taken: Option<T>)
        ensures
            final(self)@ == old(self)@.remove(key@),
            taken == if old(self)@.contains_key(key@) {
                Some(old(self)@[key@])
            } else {
                None
            },
    {
        proof {
            use_type_invariant(&*self);
        }
        let mut slots: Vec<(Vec<u8>, T)> = Vec::new();
        core::mem::swap(&mut self.slots, &mut slots);
        let ghost before = slots@;
        let taken = match find(&slots, key) {
            Some(i) => {
                let slot = slots.remove(i);
                proof {
                    lemma_map_of(before);
                    assert(distinct_keys(slots@));
                    lemma_map_of(slots@);
                    assert forall|q: Seq<u8>|
                        map_of(slots@).contains_key(q) <==> map_of(before).remove(
                            key@,
                        ).contains_key(q) by {
                        if map_of(before).contains_key(q) && q != key@ {
                            let j = position(before, q).unwrap();
                            if j < i {
                                assert(slots@[j].0@ == q);
                            } else {
                                assert(slots@[j - 1].0@ == q);
                            }
                        }
                    }
                }
                Some(slot.1)
            },
            None => None,
        };
        self.slots = slots;
        taken
    }
}

} // verus!
