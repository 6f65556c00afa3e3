//! The fan-out of a playback event to every registered broadcast service.
//!
//! A service is known here by its name and by a handle, a number under
//! which the owner of the service objects finds the locked object again. The
//! dispatcher decides which calls an event owes; the owner makes each call as
//! a task of its own.

use crate::events::{Metadata, PlaybackState};
use ahash::AHashMap;
use vstd::prelude::*;

verus! {

/// `ahash::AHashMap`, carried as it is: nothing inside it is visible here.
#[verifier::external_type_specification]
#[verifier::external_body]
#[verifier::reject_recursive_types(K)]
#[verifier::reject_recursive_types(V)]
#[verifier::reject_recursive_types(S)]
pub struct ExAHashMap<K, V, S>(ahash::AHashMap<K, V, S>);

/// `ahash::RandomState`, the hasher that an `AHashMap` is made with.
#[verifier::external_type_specification]
#[verifier::external_body]
pub struct ExAHashState(ahash::RandomState);

/// What a service map holds: for each registered name its handle.
pub uninterp spec fn service_entries(map: AHashMap<String, u64>) -> Map<Seq<char>, u64>;

/// The entries of a list in which nothing is registered.
pub open spec fn no_services() -> Map<Seq<char>, u64> {
    Map::empty()
}

/// `entries` has finitely many entries, and `n` of them.
pub open spec fn counts(entries: Map<Seq<char>, u64>, n: nat) -> bool {
    entries.dom().finite() && entries.dom().len() == n
}

/// `names` lists every name of `entries` once, and `handles` gives the handle
/// of each, place by place.
pub open spec fn enumerates(
    entries: Map<Seq<char>, u64>,
    names: Seq<Seq<char>>,
    handles: Seq<u64>,
) -> bool {
    &&& names.no_duplicates()
    &&& names.len() == handles.len()
    &&& forall|i: int|
        0 <= i < names.len() ==> entries.dom().contains(#[trigger] names[i]) && entries[names[i]]
            == handles[i]
    &&& forall|name: Seq<char>| entries.dom().contains(name) ==> names.contains(name)
}

/// `handles` holds the handle of every entry of `entries`, one for each
/// entry, in some order.
pub open spec fn is_snapshot(entries: Map<Seq<char>, u64>, handles: Seq<u64>) -> bool {
    exists|names: Seq<Seq<char>>| enumerates(entries, names, handles)
}

/// A snapshot has one handle for each entry: the entries are finitely many,
/// and as many as the handles.
pub proof fn lemma_snapshot_counts_entries(entries: Map<Seq<char>, u64>, handles: Seq<u64>)
    requires
        is_snapshot(entries, handles),
    ensures
        entries.dom().finite(),
        entries.dom().len() == handles.len(),
        forall|i: int| 0 <= i < handles.len() ==> entries.values().contains(#[trigger] handles[i]),
        forall|name: Seq<char>|
            entries.dom().contains(name) ==> handles.contains(#[trigger] entries[name]),
{
    let names = choose|names: Seq<Seq<char>>| enumerates(entries, names, handles);
    assert(names.to_set() =~= entries.dom()) by {
        assert forall|name: Seq<char>| names.to_set().contains(name) implies entries.dom().contains(
            name,
        ) by {
            let i = names.index_of(name);
            assert(names[i] == name);
        }
    }
    names.unique_seq_to_set();
    assert forall|i: int| 0 <= i < handles.len() implies entries.values().contains(
        #[trigger] handles[i],
    ) by {
        assert(entries.dom().contains(names[i]) && entries[names[i]] == handles[i]);
    }
    assert forall|name: Seq<char>| entries.dom().contains(name) implies handles.contains(
        #[trigger] entries[name],
    ) by {
        let i = names.index_of(name);
        assert(names[i] == name);
        assert(handles[i] == entries[name]);
    }
}

/// `AHashMap::new`: the new map has no entry.
#[verifier::external_body]
fn map_new() -> (fresh: AHashMap<String, u64>)
    ensures
        service_entries(fresh) == no_services(),
{
    AHashMap::new()
}

/// `AHashMap::insert`: the entry for `name` is `handle` afterwards, the other
/// entries stay, and the handle that `name` had before is returned. The map
/// holds finitely many entries.
#[verifier::external_body]
fn map_insert(map: &mut AHashMap<String, u64>, name: String, handle: u64) -> (before: Option<u64>)
    ensures
        service_entries(*final(map)) == service_entries(*old(map)).insert(name@, handle),
        service_entries(*final(map)).dom().finite(),
        before == (if service_entries(*old(map)).dom().contains(name@) {
            Some(service_entries(*old(map))[name@])
        } else {
            None
        }),
{
    map.insert(name, handle)
}

/// `AHashMap::remove`: the entry for `name` is gone afterwards, the other
/// entries stay, and the handle that `name` had is returned. The map holds
/// finitely many entries.
#[verifier::external_body]
fn map_remove(map: &mut AHashMap<String, u64>, name: &str) -> (before: Option<u64>)
    ensures
        service_entries(*final(map)) == service_entries(*old(map)).remove(name@),
        service_entries(*final(map)).dom().finite(),
        before == (if service_entries(*old(map)).dom().contains(name@) {
            Some(service_entries(*old(map))[name@])
        } else {
            None
        }),
{
    map.remove(name)
}

/// `AHashMap::get`: the handle of `name`, if it has an entry.
#[verifier::external_body]
fn map_get(map: &AHashMap<String, u64>, name: &str) -> (found: Option<u64>)
    ensures
        found == (if service_entries(*map).dom().contains(name@) {
            Some(service_entries(*map)[name@])
        } else {
            None
        }),
{
    map.get(name).copied()
}

/// `HashMap::len`, reached through the map's `Deref`: the number of
/// entries, of which a map holds finitely many.
#[verifier::external_body]
fn map_len(map: &AHashMap<String, u64>) -> (n: usize)
    ensures
        counts(service_entries(*map), n as nat),
{
    map.len()
}

/// `HashMap::values`, reached through the map's `Deref`: the handle of every
/// entry, once for each entry. The order is the map's own and nothing is
/// said of it.
#[verifier::external_body]
fn map_values(map: &AHashMap<String, u64>) -> (handles: Vec<u64>)
    ensures
        is_snapshot(service_entries(*map), handles@),
{
    map.values().cloned().collect()
}

/// An event of playback, to be told to every broadcast service.
#[derive(Debug, PartialEq, Clone)]
pub enum MMBSEvent {
    NewTrack(String),
    MetadataRecieved(Metadata),
    StateChanged(PlaybackState),
    PositionChanged(u64),
    DurationChanged(u64),
}

/// One call of the capability interface that every service implements.
#[derive(Debug, PartialEq, Clone)]
pub enum ServiceCall {
    NewTrack(String),
    MetadataReceived(Metadata),
    StateChanged(PlaybackState),
    PositionChanged(u64),
    DurationChanged(u64),
}

/// The call that an event owes to each service.
pub open spec fn call_of(event: MMBSEvent) -> ServiceCall {
    match event {
        MMBSEvent::NewTrack(path) => ServiceCall::NewTrack(path),
        MMBSEvent::MetadataRecieved(metadata) => ServiceCall::MetadataReceived(metadata),
        MMBSEvent::StateChanged(state) => ServiceCall::StateChanged(state),
        MMBSEvent::PositionChanged(ms) => ServiceCall::PositionChanged(ms),
        MMBSEvent::DurationChanged(ms) => ServiceCall::DurationChanged(ms),
    }
}

impl MMBSEvent {
    pub fn call(&self) -> (call: ServiceCall)
        ensures
            call == call_of(*self),
    {
        match self {
            MMBSEvent::NewTrack(path) => ServiceCall::NewTrack(path.clone()),
            MMBSEvent::MetadataRecieved(metadata) => ServiceCall::MetadataReceived(
                metadata.copy(),
            ),
            MMBSEvent::StateChanged(state) => ServiceCall::StateChanged(*state),
            MMBSEvent::PositionChanged(ms) => ServiceCall::PositionChanged(*ms),
            MMBSEvent::DurationChanged(ms) => ServiceCall::DurationChanged(*ms),
        }
    }
}

/// One unit of work of a dispatch: `call`, to be made on the service behind
/// `service` under that service's lock.
#[derive(Debug, PartialEq, Clone)]
pub struct Invocation {
    pub service: u64,
    pub call: ServiceCall,
}

/// The handles that a plan addresses, place by place.
pub open spec fn services_of(plan: Seq<Invocation>) -> Seq<u64> {
    plan.map_values(|unit: Invocation| unit.service)
}

/// The registered broadcast services, by name.
pub struct MMBSList(pub AHashMap<String, u64>);

impl MMBSList {
    /// For each registered name its handle.
    pub open spec fn entries(&self) -> Map<Seq<char>, u64> {
        service_entries(self.0)
    }

    pub fn new() -> (list: MMBSList)
        ensures
            list.entries() == no_services(),
    {
        MMBSList(map_new())
    }

    /// Registers the service `handle` under `name`. A service that had the
    /// name is replaced, and its handle returned.
    pub fn register(&mut self, name: String, handle: u64) -> (replaced: Option<u64>)
        ensures
            final(self).entries() == old(self).entries().insert(name@, handle),
            final(self).entries().dom().finite(),
            old(self).entries().dom().finite(),
            replaced == (if old(self).entries().dom().contains(name@) {
                Some(old(self).entries()[name@])
            } else {
                None
            }),
    {
        let ghost before = self.entries();
        let replaced = map_insert(&mut self.0, name, handle);
        proof {
            assert(before.dom().subset_of(self.entries().dom()));
            vstd::set_lib::lemma_len_subset(before.dom(), self.entries().dom());
        }
        replaced
    }

    /// Takes the service under `name` out, and returns its handle.
    pub fn unregister(&mut self, name: &str) -> (removed: Option<u64>)
        ensures
            final(self).entries() == old(self).entries().remove(name@),
            final(self).entries().dom().finite(),
            old(self).entries().dom().finite(),
            removed == (if old(self).entries().dom().contains(name@) {
                Some(old(self).entries()[name@])
            } else {
                None
            }),
    {
        let ghost before = self.entries();
        let removed = map_remove(&mut self.0, name);
        proof {
            assert(before.dom() =~= self.entries().dom().insert(name@) || before.dom()
                =~= self.entries().dom());
        }
        removed
    }

    /// The handle registered under `name`.
    pub fn handle_of(&self, name: &str) -> (found: Option<u64>)
        ensures
            found == (if self.entries().dom().contains(name@) {
                Some(self.entries()[name@])
            } else {
                None
            }),
    {
        map_get(&self.0, name)
    }

    /// The number of registered services.
    pub fn len(&self) -> (n: usize)
        ensures
            self.entries().dom().finite(),
            n == self.entries().dom().len(),
    {
        map_len(&self.0)
    }

    /// The work that `event` owes: for every service registered at this
    /// moment one invocation, each with the call that belongs to the event.
    /// The plan is a copy: a service registered later is not in it. Its
    /// units are independent of each other, and their order means nothing:
    /// calls to one service are put in order by that service's lock alone.
    pub fn dispatch(&self, event: &MMBSEvent) -> (plan: Vec<Invocation>)
        ensures
            is_snapshot(self.entries(), services_of(plan@)),
            self.entries().dom().finite(),
            plan@.len() == self.entries().dom().len(),
            forall|i: int| 0 <= i < plan@.len() ==> (#[trigger] plan@[i]).call == call_of(*event),
    {
        let handles = map_values(&self.0);
        let mut plan: Vec<Invocation> = Vec::new();
        let mut i: usize = 0;
        while i < handles.len()
            invariant
                i <= handles.len(),
                plan@.len() == i,
                forall|j: int|
                    0 <= j < i ==> (#[trigger] plan@[j]).service == handles@[j] && plan@[j].call
                        == call_of(*event),
            decreases handles.len() - i,
        {
            plan.push(Invocation { service: handles[i], call: event.call() });
            i += 1;
        }
        proof {
            assert(services_of(plan@) =~= handles@);
            lemma_snapshot_counts_entries(self.entries(), handles@);
        }
        plan
    }
}

} // verus!
