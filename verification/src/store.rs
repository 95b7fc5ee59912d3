//! The name store: at most one IPv4 address per domain name.

use crate::address::Ipv4;
use vstd::hash_map::StringHashMap;
use vstd::prelude::*;

verus! {

/// What a store with the records `records` answers for `name`.
pub open spec fn lookup_in(records: Map<Seq<char>, Ipv4>, name: Seq<char>) -> Option<Ipv4> {
    if records.contains_key(name) {
        Some(records[name])
    } else {
        None
    }
}

/// The records after `name -> address` was offered: the first address
/// recorded for a name stays.
pub open spec fn upsert_in(records: Map<Seq<char>, Ipv4>, name: Seq<char>, address: Ipv4) -> Map<
    Seq<char>,
    Ipv4,
> {
    if records.contains_key(name) {
        records
    } else {
        records.insert(name, address)
    }
}

/// The records after `name` was withdrawn.
pub open spec fn remove_from(records: Map<Seq<char>, Ipv4>, name: Seq<char>) -> Map<
    Seq<char>,
    Ipv4,
> {
    records.remove(name)
}

/// A mapping from domain name to IPv4 address.
///
/// The store compares names exactly as they are given; callers derive the
/// key of a name before they ask. Sharing a store between tasks is the
/// caller's business: every operation here is one step on the mapping.
pub struct NameStore {
    records: StringHashMap<Ipv4>,
}

impl View for NameStore {
    type V = Map<Seq<char>, Ipv4>;

    closed spec fn view(&self) -> Map<Seq<char>, Ipv4> {
        self.records@
    }
}

impl NameStore {
    /// A store without records.
    pub fn new() -> (store: NameStore)
        ensures
            store@ == Map::<Seq<char>, Ipv4>::empty(),
    {
        NameStore { records: StringHashMap::new() }
    }

    /// The address recorded for `name`, if there is one.
    pub fn lookup(&self, name: &str) -> (found: Option<Ipv4>)
        ensures
            found == lookup_in(self@, name@),
    {
        match self.records.get(name) {
            Some(address) => Some(*address),
            None => None,
        }
    }

    /// Records `name -> address` unless `name` already has an address.
    /// Returns whether the record was added.
    pub fn upsert_if_absent(&mut self, name: &str, address: Ipv4) -> (inserted: bool)
        ensures
            inserted == !old(self)@.contains_key(name@),
            final(self)@ == upsert_in(old(self)@, name@, address),
    {
        if self.records.contains_key(name) {
            false
        } else {
            self.records.insert(String::from_str(name), address);
            true
        }
    }

    /// Deletes the record of `name`. Returns whether there was one.
    pub fn remove(&mut self, name: &str) -> (removed: bool)
        ensures
            removed == old(self)@.contains_key(name@),
            final(self)@ == remove_from(old(self)@, name@),
    {
        let present = self.records.contains_key(name);
        self.records.remove(name);
        present
    }

    /// The number of records.
    pub fn len(&self) -> (n: usize)
        ensures
            n == self@.len(),
    {
        self.records.len()
    }
}

/// First write wins: once `name` was offered with `first`, offering it
/// again with another address leaves the lookup at `first`, unless the
/// store held another address for `name` before either offer.
pub proof fn lemma_first_address_stays(
    records: Map<Seq<char>, Ipv4>,
    name: Seq<char>,
    first: Ipv4,
    second: Ipv4,
)
    requires
        records.contains_key(name) ==> records[name] == first,
    ensures
        lookup_in(upsert_in(upsert_in(records, name, first), name, second), name) == Some(first),
{
}

/// Offering a name that has an address changes nothing, whatever the
/// store held before.
pub proof fn lemma_second_offer_changes_nothing(
    records: Map<Seq<char>, Ipv4>,
    name: Seq<char>,
    first: Ipv4,
    second: Ipv4,
)
    ensures
        upsert_in(upsert_in(records, name, first), name, second) == upsert_in(records, name, first),
{
}

/// After a name was removed the store has no answer for it.
pub proof fn lemma_removed_name_misses(records: Map<Seq<char>, Ipv4>, name: Seq<char>)
    ensures
        lookup_in(remove_from(records, name), name) == None::<Ipv4>,
{
}

} // verus!
