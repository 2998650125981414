//! The state as it is written out: one record, read and written as a
//! whole.
//!
//! The record holds the maps of the state as lists. Reading the record
//! back gives the state that was written: the same removal sets, the same
//! apps on file, the same key.

use vstd::prelude::*;
use crate::collections::{StrMap, StrSet, bound_in_order, lemma_bound_in_order, texts};
use crate::error::AdapterError;
use crate::state::{DiscoveredApp, State, Timestamp};
use crate::text::{clone_opt, concat};

verus! {

/// The persisted form of the state.
#[derive(Debug)]
pub struct StateRecord {
    pub version: String,
    pub first_boot_completed: bool,
    pub authelia_sync_completed: bool,
    pub api_key: Option<String>,
    /// For each board, the URLs removed from it.
    pub removed_apps_by_board: Vec<(String, Vec<String>)>,
    pub last_sync: Option<Timestamp>,
    /// The apps on file, each with its URL.
    pub discovered_apps: Vec<(String, DiscoveredApp)>,
}

/// The removal sets that a list of boards with their URLs stands for. Where
/// a board occurs more than once, its last entry stands.
pub open spec fn removal_sets(rs: Seq<(String, Vec<String>)>) -> Map<Seq<char>, Set<Seq<char>>>
    decreases rs.len(),
{
    if rs.len() == 0 {
        Map::empty()
    } else {
        removal_sets(rs.drop_last()).insert(rs.last().0@, texts(rs.last().1@).to_set())
    }
}

/// The removal sets of a map of sets.
pub open spec fn sets_of(m: Map<Seq<char>, StrSet>) -> Map<Seq<char>, Set<Seq<char>>> {
    m.map_values(|s: StrSet| s@)
}

impl StateRecord {
    /// The removal sets that the record holds.
    pub open spec fn removed(self) -> Map<Seq<char>, Set<Seq<char>>> {
        removal_sets(self.removed_apps_by_board@)
    }

    /// The apps on file that the record holds.
    pub open spec fn discovered(self) -> Map<Seq<char>, DiscoveredApp> {
        bound_in_order(self.discovered_apps@)
    }

    /// The record holds what `state` holds.
    pub open spec fn records(self, state: State) -> bool {
        &&& self.version == state.version
        &&& self.first_boot_completed == state.first_boot_completed
        &&& self.authelia_sync_completed == state.authelia_sync_completed
        &&& self.api_key == state.api_key
        &&& self.removed() == state.removed()
        &&& self.last_sync == state.last_sync
        &&& self.discovered() == state.discovered_apps@
    }
}

proof fn lemma_removal_sets(rs: Seq<(String, Vec<String>)>, es: Seq<(String, StrSet)>)
    requires
        rs.len() == es.len(),
        forall|i: int|
            0 <= i < rs.len() ==> (#[trigger] rs[i]).0@ == es[i].0@ && texts(rs[i].1@).to_set()
                == es[i].1@,
    ensures
        removal_sets(rs) == sets_of(bound_in_order(es)),
    decreases rs.len(),
{
    if rs.len() == 0 {
        assert(sets_of(bound_in_order(es)) =~= Map::<Seq<char>, Set<Seq<char>>>::empty());
    } else {
        let r_front = rs.drop_last();
        let e_front = es.drop_last();
        assert forall|i: int| 0 <= i < r_front.len() implies (#[trigger] r_front[i]).0@
            == e_front[i].0@ && texts(r_front[i].1@).to_set() == e_front[i].1@ by {
            assert(r_front[i] == rs[i]);
            assert(e_front[i] == es[i]);
        }
        lemma_removal_sets(r_front, e_front);
        assert(rs.last() == rs[rs.len() - 1]);
        assert(sets_of(bound_in_order(e_front).insert(es.last().0@, es.last().1)) =~= sets_of(
            bound_in_order(e_front),
        ).insert(es.last().0@, es.last().1@));
    }
}

fn clone_strings(v: &Vec<String>) -> (r: Vec<String>)
    ensures
        r@ == v@,
{
    let mut r: Vec<String> = Vec::new();
    let mut i: usize = 0;
    while i < v.len()
        invariant
            i <= v.len(),
            r@ == v@.take(i as int),
        decreases v.len() - i,
    {
        r.push(v[i].clone());
        assert(r@ =~= v@.take(i as int + 1));
        i += 1;
    }
    assert(v@.take(i as int) =~= v@);
    r
}

fn removals_to_list(removals: &StrMap<StrSet>) -> (list: Vec<(String, Vec<String>)>)
    ensures
        removal_sets(list@) == sets_of(removals@),
{
    let entries = removals.entries();
    let mut list: Vec<(String, Vec<String>)> = Vec::new();
    let mut i: usize = 0;
    while i < entries.len()
        invariant
            i <= entries.len(),
            list@.len() == i,
            forall|k: int|
                0 <= k < i ==> (#[trigger] list@[k]).0@ == entries@[k].0@ && texts(
                    list@[k].1@,
                ).to_set() == entries@[k].1@,
        decreases entries.len() - i,
    {
        let urls = clone_strings(entries[i].1.items());
        list.push((entries[i].0.clone(), urls));
        i += 1;
    }
    proof {
        lemma_removal_sets(list@, entries@);
        lemma_bound_in_order(entries@);
    }
    list
}

fn removals_from_list(list: Vec<(String, Vec<String>)>) -> (removals: StrMap<StrSet>)
    ensures
        sets_of(removals@) == removal_sets(list@),
{
    let mut removals: StrMap<StrSet> = StrMap::new();
    assert(list@.take(0) =~= Seq::<(String, Vec<String>)>::empty());
    assert(sets_of(removals@) =~= Map::<Seq<char>, Set<Seq<char>>>::empty());
    for entry in iter: list
        invariant
            iter.seq() == list@,
            sets_of(removals@) == removal_sets(list@.take(iter.index() as int)),
    {
        let ghost before = removals@;
        proof {
            let next = list@.take(iter.index() + 1);
            assert(next.drop_last() =~= list@.take(iter.index() as int));
            assert(next.last() == entry);
        }
        let urls = StrSet::from_items(entry.1);
        removals.insert(entry.0, urls);
        assert(sets_of(removals@) =~= sets_of(before).insert(entry.0@, urls@));
    }
    assert(list@.take(list@.len() as int) =~= list@);
    removals
}

fn apps_to_list(apps: &StrMap<DiscoveredApp>) -> (list: Vec<(String, DiscoveredApp)>)
    ensures
        bound_in_order(list@) == apps@,
{
    let entries = apps.entries();
    let mut list: Vec<(String, DiscoveredApp)> = Vec::new();
    let mut i: usize = 0;
    while i < entries.len()
        invariant
            i <= entries.len(),
            list@ == entries@.take(i as int),
        decreases entries.len() - i,
    {
        let app = &entries[i].1;
        let copy = DiscoveredApp {
            name: app.name.clone(),
            container_id: app.container_id.clone(),
            added_at: app.added_at,
        };
        list.push((entries[i].0.clone(), copy));
        assert(list@ =~= entries@.take(i as int + 1));
        i += 1;
    }
    proof {
        assert(entries@.take(i as int) =~= entries@);
        lemma_bound_in_order(entries@);
    }
    list
}

/// The complaint about a state file that is no state.
pub open spec fn unreadable_state_message(why: Seq<char>) -> Seq<char> {
    "Failed to parse state: "@ + why
}

impl State {
    /// Save state: the record to write out. It holds what the state holds.
    pub fn save(&self) -> (record: StateRecord)
        ensures
            record.records(*self),
    {
        StateRecord {
            version: self.version.clone(),
            first_boot_completed: self.first_boot_completed,
            authelia_sync_completed: self.authelia_sync_completed,
            api_key: clone_opt(&self.api_key),
            removed_apps_by_board: removals_to_list(&self.removed_apps_by_board),
            last_sync: self.last_sync,
            discovered_apps: apps_to_list(&self.discovered_apps),
        }
    }

    /// The state that a record holds.
    pub fn restore(record: StateRecord) -> (state: State)
        ensures
            record.records(state),
    {
        let StateRecord {
            version,
            first_boot_completed,
            authelia_sync_completed,
            api_key,
            removed_apps_by_board,
            last_sync,
            discovered_apps,
        } = record;
        State {
            version,
            first_boot_completed,
            authelia_sync_completed,
            api_key,
            removed_apps_by_board: removals_from_list(removed_apps_by_board),
            last_sync,
            discovered_apps: StrMap::from_entries(discovered_apps),
        }
    }

    /// Load state, given what reading its file came to: no file, a file
    /// that is no state, or the record. Without a file the state is the
    /// default state. A file that is no state is a `State` error.
    pub fn load(found: Option<Result<StateRecord, String>>) -> (r: Result<State, AdapterError>)
        ensures
            match found {
                None => r matches Ok(state) && state.is_fresh(),
                Some(Ok(record)) => r matches Ok(state) && record.records(state),
                Some(Err(why)) => r matches Err(AdapterError::State(m)) && m@
                    == unreadable_state_message(why@),
            },
    {
        match found {
            None => Ok(State::default()),
            Some(Ok(record)) => Ok(State::restore(record)),
            Some(Err(why)) => Err(
                AdapterError::State(concat("Failed to parse state: ", why.as_str())),
            ),
        }
    }

    /// The state to go on with after `load`: the state that was loaded or,
    /// where none could be, a fresh one, so that first-boot setup runs
    /// again. The failure comes back beside it, for the log.
    pub fn recover(loaded: Result<State, AdapterError>) -> (r: (State, Option<AdapterError>))
        ensures
            match loaded {
                Ok(state) => r.0 == state && r.1 is None,
                Err(e) => r.0.is_fresh() && r.1 == Some(e),
            },
    {
        match loaded {
            Ok(state) => (state, None),
            Err(e) => (State::default(), Some(e)),
        }
    }

    /// The state of an adapter that has never run.
    pub open spec fn is_fresh(self) -> bool {
        &&& self.version@.len() == 0
        &&& !self.first_boot_completed
        &&& !self.authelia_sync_completed
        &&& self.api_key is None
        &&& self.removed() == Map::<Seq<char>, Set<Seq<char>>>::empty()
        &&& self.last_sync is None
        &&& self.discovered_apps@ == Map::<Seq<char>, DiscoveredApp>::empty()
    }
}

/// A state that is saved and restored is the state that was saved: the
/// same removal sets, the same apps on file, the same key, the same flags
/// and times.
pub proof fn law_saved_state_is_restored(state: State, record: StateRecord, restored: State)
    requires
        record.records(state),
        record.records(restored),
    ensures
        restored.removed() == state.removed(),
        restored.discovered_apps@ == state.discovered_apps@,
        restored.api_key == state.api_key,
        restored.version == state.version,
        restored.first_boot_completed == state.first_boot_completed,
        restored.authelia_sync_completed == state.authelia_sync_completed,
        restored.last_sync == state.last_sync,
        forall|board: Seq<char>, url: Seq<char>|
            restored.is_removed(board, url) == state.is_removed(board, url),
{
}

} // verus!
