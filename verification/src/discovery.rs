//! The discovery ingestor: what a listing of running workloads and each
//! lifecycle event do to the name store.

use crate::address::Ipv4;
use crate::store::{lookup_in, remove_from, upsert_in, NameStore};
use crate::text::{ascii_lower, lemma_lower_idempotent, to_lower};
use vstd::prelude::*;
use vstd::string::*;

verus! {

/// The suffix that marks a name as one learned from discovery.
pub open spec fn discovery_suffix() -> Seq<char> {
    seq!['.', 'd', 'o', 'c', 'k', 'e', 'r', '.']
}

/// `raw` without the slashes it starts with.
pub open spec fn without_leading_slashes(raw: Seq<char>) -> Seq<char>
    decreases raw.len(),
{
    if raw.len() > 0 && raw[0] == '/' {
        without_leading_slashes(raw.drop_first())
    } else {
        raw
    }
}

/// The store key of the workload called `name`: the name in lower case,
/// followed by the discovery suffix.
pub open spec fn key_of(name: Seq<char>) -> Seq<char> {
    ascii_lower(name) + discovery_suffix()
}

/// The first address in `addresses`, one entry per attached network in the
/// order the provider gave them.
pub open spec fn first_address(addresses: Seq<Option<Ipv4>>) -> Option<Ipv4>
    decreases addresses.len(),
{
    if addresses.len() == 0 {
        None
    } else if addresses[0] is Some {
        addresses[0]
    } else {
        first_address(addresses.drop_first())
    }
}

/// A running workload as the provider lists it.
#[derive(Clone, Debug, PartialEq, Eq)]
pub struct Workload {
    /// The names of the workload, each as the provider writes it (with a
    /// leading slash).
    pub names: Vec<String>,
    /// The address on each attached network, `None` where a network gave
    /// none.
    pub addresses: Vec<Option<Ipv4>>,
}

/// A workload as contracts see it.
pub struct WorkloadView {
    pub names: Seq<Seq<char>>,
    pub addresses: Seq<Option<Ipv4>>,
}

impl View for Workload {
    type V = WorkloadView;

    open spec fn view(&self) -> WorkloadView {
        WorkloadView {
            names: Seq::new(self.names@.len(), |i: int| self.names@[i]@),
            addresses: self.addresses@,
        }
    }
}

/// The record that a workload stands for: its first name, without leading
/// slashes, as a key, and its first address. A workload without a name or
/// without an address stands for none.
pub open spec fn record_of(w: WorkloadView) -> Option<(Seq<char>, Ipv4)> {
    if w.names.len() == 0 {
        None
    } else {
        match first_address(w.addresses) {
            Some(address) => Some((key_of(without_leading_slashes(w.names[0])), address)),
            None => None,
        }
    }
}

/// The records after one listed workload was taken in.
pub open spec fn after_workload(records: Map<Seq<char>, Ipv4>, w: WorkloadView) -> Map<
    Seq<char>,
    Ipv4,
> {
    match record_of(w) {
        Some((key, address)) => upsert_in(records, key, address),
        None => records,
    }
}

/// The records after a listing was taken in, first workload first.
pub open spec fn after_scan(records: Map<Seq<char>, Ipv4>, listing: Seq<WorkloadView>) -> Map<
    Seq<char>,
    Ipv4,
>
    decreases listing.len(),
{
    if listing.len() == 0 {
        records
    } else {
        after_workload(after_scan(records, listing.drop_last()), listing.last())
    }
}

/// The views of a listing.
pub open spec fn listing_view(listing: Seq<Workload>) -> Seq<WorkloadView> {
    Seq::new(listing.len(), |i: int| listing[i]@)
}

/// The name of a workload as the store keys it: `raw` without the slashes
/// it starts with.
pub fn workload_name(raw: &str) -> (name: String)
    ensures
        name@ == without_leading_slashes(raw@),
{
    let n = raw.unicode_len();
    let mut i: usize = 0;
    proof {
        assert(raw@.skip(0) =~= raw@);
    }
    while i < n && raw.get_char(i) == '/'
        invariant
            i <= n,
            n == raw@.len(),
            without_leading_slashes(raw@) == without_leading_slashes(raw@.skip(i as int)),
        decreases n - i,
    {
        proof {
            assert(raw@.skip(i as int).drop_first() =~= raw@.skip(i + 1));
        }
        i = i + 1;
    }
    proof {
        if i < n {
            assert(raw@.skip(i as int)[0] == raw@[i as int]);
        } else {
            assert(raw@.skip(i as int).len() == 0);
        }
        assert(raw@.subrange(i as int, n as int) =~= raw@.skip(i as int));
    }
    String::from_str(raw.substring_char(i, n))
}

/// The store key of the workload called `name`.
pub fn record_key(name: &str) -> (key: String)
    ensures
        key@ == key_of(name@),
{
    let mut key = to_lower(name);
    proof {
        reveal_strlit(".docker.");
        assert(".docker."@ =~= discovery_suffix());
    }
    key.append(".docker.");
    key
}

/// The address that stands for a workload: the first that any of its
/// networks gave.
pub fn get_container_ip(addresses: &Vec<Option<Ipv4>>) -> (picked: Option<Ipv4>)
    ensures
        picked == first_address(addresses@),
{
    let mut i: usize = 0;
    proof {
        assert(addresses@.skip(0) =~= addresses@);
    }
    while i < addresses.len()
        invariant
            i <= addresses.len(),
            first_address(addresses@) == first_address(addresses@.skip(i as int)),
        decreases addresses.len() - i,
    {
        proof {
            assert(addresses@.skip(i as int)[0] == addresses@[i as int]);
            assert(addresses@.skip(i as int).drop_first() =~= addresses@.skip(i + 1));
        }
        match addresses[i] {
            Some(address) => {
                return Some(address);
            },
            None => {},
        }
        i = i + 1;
    }
    proof {
        assert(addresses@.skip(i as int).len() == 0);
    }
    None
}

/// The keys that a listing offers to the store, one for each workload that
/// has a name and an address, in the order of the listing.
pub open spec fn offered_keys(listing: Seq<WorkloadView>) -> Seq<Seq<char>>
    decreases listing.len(),
{
    if listing.len() == 0 {
        Seq::empty()
    } else {
        let before = offered_keys(listing.drop_last());
        match record_of(listing.last()) {
            Some((key, _)) => before.push(key),
            None => before,
        }
    }
}

/// The characters of each of a list of strings.
pub open spec fn texts(strings: Seq<String>) -> Seq<Seq<char>> {
    Seq::new(strings.len(), |i: int| strings[i]@)
}

/// Takes a listing of the running workloads into the store: each workload
/// that has a name and an address is offered under its key, first workload
/// first, and no record that is already there is overwritten. Returns the
/// keys that were offered.
pub fn gather_docker(store: &mut NameStore, listing: &Vec<Workload>) -> (offered: Vec<String>)
    ensures
        final(store)@ == after_scan(old(store)@, listing_view(listing@)),
        texts(offered@) == offered_keys(listing_view(listing@)),
{
    let mut offered: Vec<String> = Vec::new();
    let mut i: usize = 0;
    while i < listing.len()
        invariant
            i <= listing.len(),
            store@ == after_scan(old(store)@, listing_view(listing@).take(i as int)),
            texts(offered@) == offered_keys(listing_view(listing@).take(i as int)),
        decreases listing.len() - i,
    {
        let workload = &listing[i];
        let ghost before = texts(offered@);
        proof {
            let views = listing_view(listing@);
            assert(views.take(i + 1).drop_last() =~= views.take(i as int));
            assert(views.take(i + 1).last() == workload@);
        }
        if workload.names.len() > 0 {
            match get_container_ip(&workload.addresses) {
                Some(address) => {
                    let name = workload_name(workload.names[0].as_str());
                    let key = record_key(name.as_str());
                    store.upsert_if_absent(key.as_str(), address);
                    offered.push(key);
                    proof {
                        assert(texts(offered@) =~= before.push(key@));
                    }
                },
                None => {},
            }
        }
        i = i + 1;
    }
    proof {
        assert(listing_view(listing@).take(i as int) =~= listing_view(listing@));
    }
    offered
}

/// What a lifecycle event says happened to a workload.
#[derive(Clone, Copy, Debug, PartialEq, Eq, Structural)]
pub enum Transition {
    /// The workload started.
    Started,
    /// The workload stopped, died or was killed.
    Stopped,
    /// Anything else.
    Other,
}

/// The transition that the provider reports under the word `action`.
pub open spec fn transition_of(action: Seq<char>) -> Transition {
    if action == seq!['s', 't', 'a', 'r', 't'] {
        Transition::Started
    } else if action == seq!['k', 'i', 'l', 'l'] || action == seq!['d', 'i', 'e'] || action == seq![
        's',
        't',
        'o',
        'p',
    ] {
        Transition::Stopped
    } else {
        Transition::Other
    }
}

/// The transition that the provider reports under the word `action`:
/// `start` is a start; `kill`, `die` and `stop` are a stop.
pub fn transition(action: &str) -> (t: Transition)
    ensures
        t == transition_of(action@),
{
    proof {
        reveal_strlit("start");
        reveal_strlit("kill");
        reveal_strlit("die");
        reveal_strlit("stop");
        assert("start"@ =~= seq!['s', 't', 'a', 'r', 't']);
        assert("kill"@ =~= seq!['k', 'i', 'l', 'l']);
        assert("die"@ =~= seq!['d', 'i', 'e']);
        assert("stop"@ =~= seq!['s', 't', 'o', 'p']);
    }
    let word = String::from_str(action);
    if word == String::from_str("start") {
        Transition::Started
    } else if word == String::from_str("kill") || word == String::from_str("die") || word
        == String::from_str("stop") {
        Transition::Stopped
    } else {
        Transition::Other
    }
}

/// One event of the provider's feed.
#[derive(Clone, Debug, PartialEq, Eq)]
pub struct LifecycleEvent {
    /// Whether the event is about a workload (and not about a network, a
    /// volume or the like).
    pub about_workload: bool,
    /// The word the provider uses for what happened.
    pub action: Option<String>,
    /// The workload's name from the event's metadata.
    pub name: Option<String>,
}

/// An event as contracts see it.
pub struct EventView {
    pub about_workload: bool,
    pub action: Option<Seq<char>>,
    pub name: Option<Seq<char>>,
}

impl View for LifecycleEvent {
    type V = EventView;

    open spec fn view(&self) -> EventView {
        EventView {
            about_workload: self.about_workload,
            action: match self.action {
                Some(a) => Some(a@),
                None => None,
            },
            name: match self.name {
                Some(n) => Some(n@),
                None => None,
            },
        }
    }
}

/// The transition an event reports: none for an event that is not about a
/// workload or names no action.
pub open spec fn event_transition(event: EventView) -> Transition {
    if !event.about_workload {
        Transition::Other
    } else {
        match event.action {
            Some(action) => transition_of(action),
            None => Transition::Other,
        }
    }
}

/// The records after a workload called `name` was seen to start with the
/// addresses `addresses`.
pub open spec fn after_started(
    records: Map<Seq<char>, Ipv4>,
    name: Seq<char>,
    addresses: Seq<Option<Ipv4>>,
) -> Map<Seq<char>, Ipv4> {
    match first_address(addresses) {
        Some(address) => upsert_in(records, key_of(name), address),
        None => records,
    }
}

/// The records after a workload called `name` was seen to stop.
pub open spec fn after_stopped(records: Map<Seq<char>, Ipv4>, name: Seq<char>) -> Map<
    Seq<char>,
    Ipv4,
> {
    remove_from(records, key_of(name))
}

/// What the ingestor does about an event.
#[derive(Clone, Copy, Debug, PartialEq, Eq, Structural)]
pub enum Reaction {
    /// Nothing: the event reports no start or stop, or names no workload.
    Ignored,
    /// The named workload started: its addresses are to be asked of the
    /// provider and handed to `handle_started_container`.
    Resolve,
    /// The named workload stopped and its record was deleted.
    Removed,
    /// The named workload stopped and had no record.
    NotRecorded,
}

/// The reaction to `event` of an ingestor whose store holds `records`.
pub open spec fn reaction_to(records: Map<Seq<char>, Ipv4>, event: EventView) -> Reaction {
    match event.name {
        None => Reaction::Ignored,
        Some(name) => match event_transition(event) {
            Transition::Started => Reaction::Resolve,
            Transition::Stopped => if records.contains_key(key_of(name)) {
                Reaction::Removed
            } else {
                Reaction::NotRecorded
            },
            Transition::Other => Reaction::Ignored,
        },
    }
}

/// The records after `event` was handled, before any address was fetched:
/// only a stop changes them.
pub open spec fn after_event(records: Map<Seq<char>, Ipv4>, event: EventView) -> Map<
    Seq<char>,
    Ipv4,
> {
    match event.name {
        Some(name) if event_transition(event) == Transition::Stopped => after_stopped(
            records,
            name,
        ),
        _ => records,
    }
}

/// Records a started workload: if the event names a workload and
/// `addresses` holds an address, the first one is offered under the
/// workload's key. Returns `None` for an event without a name, else whether
/// a record was added.
pub fn handle_started_container(
    store: &mut NameStore,
    event: &LifecycleEvent,
    addresses: &Vec<Option<Ipv4>>,
) -> (added: Option<bool>)
    ensures
        match event@.name {
            None => added is None && final(store)@ == old(store)@,
            Some(name) => {
                &&& final(store)@ == after_started(old(store)@, name, addresses@)
                &&& added == Some(
                    first_address(addresses@) is Some && !old(store)@.contains_key(key_of(name)),
                )
            },
        },
{
    match &event.name {
        None => None,
        Some(name) => {
            match get_container_ip(addresses) {
                Some(address) => {
                    let key = record_key(name.as_str());
                    Some(store.upsert_if_absent(key.as_str(), address))
                },
                None => Some(false),
            }
        },
    }
}

/// Forgets a stopped workload: if the event names a workload, the record
/// under its key is deleted. Returns `None` for an event without a name,
/// else whether there was a record.
pub fn handle_stopped_container(store: &mut NameStore, event: &LifecycleEvent) -> (removed: Option<
    bool,
>)
    ensures
        match event@.name {
            None => removed is None && final(store)@ == old(store)@,
            Some(name) => {
                &&& final(store)@ == after_stopped(old(store)@, name)
                &&& removed == Some(old(store)@.contains_key(key_of(name)))
            },
        },
{
    match &event.name {
        None => None,
        Some(name) => {
            let key = record_key(name.as_str());
            Some(store.remove(key.as_str()))
        },
    }
}

/// Handles one event of the feed. A stop is carried out at once; a start
/// is answered with `Resolve`, because the address has to be asked of the
/// provider first; everything else is ignored.
pub fn event_monitor(store: &mut NameStore, event: &LifecycleEvent) -> (reaction: Reaction)
    ensures
        reaction == reaction_to(old(store)@, event@),
        final(store)@ == after_event(old(store)@, event@),
{
    if !event.about_workload {
        return Reaction::Ignored;
    }
    let kind = match &event.action {
        Some(action) => transition(action.as_str()),
        None => Transition::Other,
    };
    match kind {
        Transition::Started => match &event.name {
            Some(_) => Reaction::Resolve,
            None => Reaction::Ignored,
        },
        Transition::Stopped => match handle_stopped_container(store, event) {
            Some(true) => Reaction::Removed,
            Some(false) => Reaction::NotRecorded,
            None => Reaction::Ignored,
        },
        Transition::Other => Reaction::Ignored,
    }
}

/// A start followed by a stop of the same workload leaves no record under
/// its key, whatever the store held before and whatever addresses the
/// start came with.
pub proof fn lemma_start_then_stop_misses(
    records: Map<Seq<char>, Ipv4>,
    name: Seq<char>,
    addresses: Seq<Option<Ipv4>>,
)
    ensures
        lookup_in(after_stopped(after_started(records, name, addresses), name), key_of(name))
            == None::<Ipv4>,
{
}

/// The key of a workload is the lower case of its full name, the name
/// followed by the discovery suffix.
pub proof fn lemma_key_folds_full_name(name: Seq<char>)
    ensures
        ascii_lower(name + discovery_suffix()) == key_of(name),
{
    assert(ascii_lower(name + discovery_suffix()) =~= ascii_lower(name) + discovery_suffix());
}

/// Every key that discovery writes is in lower case.
pub proof fn lemma_keys_are_lower_case(name: Seq<char>)
    ensures
        ascii_lower(key_of(name)) == key_of(name),
{
    lemma_lower_idempotent(name);
    assert(ascii_lower(key_of(name)) =~= ascii_lower(ascii_lower(name)) + discovery_suffix());
}

/// Discovery never overwrites: a name that has an address keeps it through
/// any listing.
pub proof fn lemma_scan_keeps_records(
    records: Map<Seq<char>, Ipv4>,
    listing: Seq<WorkloadView>,
    name: Seq<char>,
)
    requires
        records.contains_key(name),
    ensures
        lookup_in(after_scan(records, listing), name) == lookup_in(records, name),
    decreases listing.len(),
{
    if listing.len() > 0 {
        lemma_scan_keeps_records(records, listing.drop_last(), name);
    }
}

/// Discovery never overwrites: a name that has an address keeps it when a
/// workload starts, be it under the same name.
pub proof fn lemma_start_keeps_records(
    records: Map<Seq<char>, Ipv4>,
    workload: Seq<char>,
    addresses: Seq<Option<Ipv4>>,
    name: Seq<char>,
)
    requires
        records.contains_key(name),
    ensures
        lookup_in(after_started(records, workload, addresses), name) == lookup_in(records, name),
{
}

/// A stop deletes the record of the stopped workload and no other.
pub proof fn lemma_stop_removes_one_record(
    records: Map<Seq<char>, Ipv4>,
    workload: Seq<char>,
    name: Seq<char>,
)
    requires
        name != key_of(workload),
    ensures
        lookup_in(after_stopped(records, workload), name) == lookup_in(records, name),
{
}

} // verus!
