//! The state that the adapter keeps between runs.

use vstd::prelude::*;
use crate::collections::{StrMap, StrSet};

verus! {

/// An instant in UTC: whole seconds since the Unix epoch and the
/// nanoseconds into that second.
#[derive(Debug, Clone, Copy, PartialEq, Eq, Structural)]
pub struct Timestamp {
    pub secs: i64,
    pub nanos: u32,
}

/// `chrono::Utc::now`, as seconds and nanoseconds. The result is the reading
/// of a clock, so nothing is promised of it.
#[verifier::external_body]
fn clock_now() -> (t: Timestamp) {
    let now = chrono::Utc::now();
    Timestamp { secs: now.timestamp(), nanos: now.timestamp_subsec_nanos() }
}

impl Timestamp {
    /// The current time, by the system's clock.
    pub fn now() -> Timestamp {
        clock_now()
    }
}

/// What the adapter remembers of an app that the registry named.
///
/// The record is filed under the app's URL: the container identifier changes
/// with every restart of the container and identifies nothing.
#[derive(Debug)]
pub struct DiscoveredApp {
    pub name: String,
    pub container_id: String,
    pub added_at: Timestamp,
}

/// Persistent state of the adapter.
#[derive(Debug)]
pub struct State {
    /// Schema version, for migrations.
    pub version: String,
    /// Whether first-boot setup has been completed.
    pub first_boot_completed: bool,
    /// Whether the credentials have been handed to Authelia.
    pub authelia_sync_completed: bool,
    /// The permanent API key, once the bootstrap key has been exchanged.
    pub api_key: Option<String>,
    /// For each board, the URLs of the apps that were taken off that board
    /// and must not be put back on it.
    pub removed_apps_by_board: StrMap<StrSet>,
    /// When the last cycle ended.
    pub last_sync: Option<Timestamp>,
    /// The apps seen so far, by URL.
    pub discovered_apps: StrMap<DiscoveredApp>,
}

/// The schema version written by this release.
pub fn default_version() -> (v: String)
    ensures
        v@ == "1.0"@,
{
    "1.0".to_owned()
}

impl Default for State {
    fn default() -> (s: Self)
        ensures
            s.version@.len() == 0,
            !s.first_boot_completed,
            !s.authelia_sync_completed,
            s.api_key is None,
            s.removed() == Map::<Seq<char>, Set<Seq<char>>>::empty(),
            s.removed_apps_by_board@ == Map::<Seq<char>, StrSet>::empty(),
            s.last_sync is None,
            s.discovered_apps@ == Map::<Seq<char>, DiscoveredApp>::empty(),
    {
        let s = State {
            version: String::new(),
            first_boot_completed: false,
            authelia_sync_completed: false,
            api_key: None,
            removed_apps_by_board: StrMap::new(),
            last_sync: None,
            discovered_apps: StrMap::new(),
        };
        assert(s.removed() =~= Map::<Seq<char>, Set<Seq<char>>>::empty());
        s
    }
}

impl State {
    /// The removal sets: for each board that has one, the URLs that must stay
    /// off it.
    pub open spec fn removed(self) -> Map<Seq<char>, Set<Seq<char>>> {
        self.removed_apps_by_board@.map_values(|s: StrSet| s@)
    }

    /// Whether `url` was taken off `board`.
    pub open spec fn is_removed(self, board: Seq<char>, url: Seq<char>) -> bool {
        self.removed().contains_key(board) && self.removed()[board].contains(url)
    }

    /// The URLs taken off `board`; none for a board without a removal set.
    pub open spec fn removed_from(self, board: Seq<char>) -> Set<Seq<char>> {
        if self.removed().contains_key(board) {
            self.removed()[board]
        } else {
            Set::empty()
        }
    }

    /// Everything but the removal sets is the same in `self` and `other`.
    pub open spec fn same_but_removals(self, other: State) -> bool {
        &&& self.version == other.version
        &&& self.first_boot_completed == other.first_boot_completed
        &&& self.authelia_sync_completed == other.authelia_sync_completed
        &&& self.api_key == other.api_key
        &&& self.last_sync == other.last_sync
        &&& self.discovered_apps@ == other.discovered_apps@
    }

    /// Everything but the time of the last cycle is the same in `self` and
    /// `other`.
    pub open spec fn same_but_sync_time(self, other: State) -> bool {
        &&& self.version == other.version
        &&& self.first_boot_completed == other.first_boot_completed
        &&& self.authelia_sync_completed == other.authelia_sync_completed
        &&& self.api_key == other.api_key
        &&& self.removed_apps_by_board@ == other.removed_apps_by_board@
        &&& self.discovered_apps@ == other.discovered_apps@
    }

    /// Everything but the discovered apps is the same in `self` and `other`.
    pub open spec fn same_but_discovered(self, other: State) -> bool {
        &&& self.version == other.version
        &&& self.first_boot_completed == other.first_boot_completed
        &&& self.authelia_sync_completed == other.authelia_sync_completed
        &&& self.api_key == other.api_key
        &&& self.removed_apps_by_board@ == other.removed_apps_by_board@
        &&& self.last_sync == other.last_sync
    }

    /// Check if an app was removed from a specific board.
    pub fn is_removed_from_board(&self, board_id: &str, app_url: &str) -> (r: bool)
        ensures
            r == self.is_removed(board_id@, app_url@),
    {
        match self.removed_apps_by_board.get(board_id) {
            Some(urls) => urls.contains(app_url),
            None => false,
        }
    }

    /// Mark an app as removed from a specific board. Other boards are not
    /// touched.
    pub fn mark_removed_from_board(&mut self, board_id: &str, app_url: &str)
        ensures
            final(self).removed() == old(self).removed().insert(
                board_id@,
                old(self).removed_from(board_id@).insert(app_url@),
            ),
            final(self).same_but_removals(*old(self)),
    {
        let ghost before = self.removed();
        let mut urls = match self.removed_apps_by_board.remove(board_id) {
            Some(urls) => urls,
            None => StrSet::new(),
        };
        urls.insert(app_url.to_owned());
        self.removed_apps_by_board.insert(board_id.to_owned(), urls);
        assert(self.removed() =~= before.insert(
            board_id@,
            old(self).removed_from(board_id@).insert(app_url@),
        ));
    }

    /// Clear the removed flag for an app on a specific board, as when the
    /// user has put the app back by hand. A board without a removal set gets
    /// none.
    pub fn clear_removed_from_board(&mut self, board_id: &str, app_url: &str)
        ensures
            final(self).removed() == if old(self).removed().contains_key(board_id@) {
                old(self).removed().insert(board_id@, old(self).removed()[board_id@].remove(app_url@))
            } else {
                old(self).removed()
            },
            final(self).same_but_removals(*old(self)),
    {
        let ghost before = self.removed();
        match self.removed_apps_by_board.remove(board_id) {
            Some(mut urls) => {
                urls.remove(app_url);
                self.removed_apps_by_board.insert(board_id.to_owned(), urls);
                assert(self.removed() =~= before.insert(
                    board_id@,
                    before[board_id@].remove(app_url@),
                ));
            },
            None => {
                assert(self.removed() =~= before);
            },
        }
    }

    /// Sets the time of the last cycle to `now`.
    pub fn set_sync_time(&mut self, now: Timestamp)
        ensures
            final(self).last_sync == Some(now),
            final(self).same_but_sync_time(*old(self)),
    {
        self.last_sync = Some(now);
    }

    /// Update last sync time to the current time.
    pub fn update_sync_time(&mut self)
        ensures
            final(self).last_sync is Some,
            final(self).same_but_sync_time(*old(self)),
    {
        let now = clock_now();
        self.set_sync_time(now);
    }

    /// Files an app under its URL. An app that is already on file keeps the
    /// time at which it was first added and takes the new name and
    /// container; a new one is filed with `now`.
    pub fn record_discovered(&mut self, url: &str, name: &str, container_id: &str, now: Timestamp)
        ensures
            final(self).discovered_apps@.dom() == old(self).discovered_apps@.dom().insert(url@),
            forall|u: Seq<char>|
                u != url@ && old(self).discovered_apps@.contains_key(u)
                    ==> final(self).discovered_apps@[u] == old(self).discovered_apps@[u],
            final(self).discovered_apps@[url@].name@ == name@,
            final(self).discovered_apps@[url@].container_id@ == container_id@,
            final(self).discovered_apps@[url@].added_at == if old(self).discovered_apps@.contains_key(
                url@,
            ) {
                old(self).discovered_apps@[url@].added_at
            } else {
                now
            },
            final(self).same_but_discovered(*old(self)),
    {
        let added_at = match self.discovered_apps.get(url) {
            Some(known) => known.added_at,
            None => now,
        };
        let app = DiscoveredApp {
            name: name.to_owned(),
            container_id: container_id.to_owned(),
            added_at,
        };
        self.discovered_apps.insert(url.to_owned(), app);
        assert(self.discovered_apps@.dom() =~= old(self).discovered_apps@.dom().insert(url@));
    }
}

} // verus!
