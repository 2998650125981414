//! What the adapter reports of itself.

use vstd::prelude::*;
use crate::collections::{entries_map, entry_keys};
use crate::state::{DiscoveredApp, State, Timestamp};
use crate::text::concat;

verus! {

/// How many characters of a container identifier are shown.
pub const SHORT_ID_LENGTH: usize = 12;

/// One line of the report: an app that the adapter has on file.
#[derive(Debug)]
pub struct AppStatus {
    pub name: String,
    pub url: String,
    /// `external` for an app without a container, else the beginning of
    /// the container's identifier.
    pub container_info: String,
}

/// The adapter's status.
#[derive(Debug)]
pub struct StatusReport {
    pub first_boot_completed: bool,
    pub authelia_sync_completed: bool,
    pub last_sync: Option<Timestamp>,
    /// The apps on file; none while first-boot setup is pending.
    pub apps: Vec<AppStatus>,
}

/// What is shown of the container `container_id`.
pub open spec fn container_text(container_id: Seq<char>) -> Seq<char> {
    if container_id.len() == 0 {
        "external"@
    } else if container_id.len() <= SHORT_ID_LENGTH {
        "container: "@ + container_id
    } else {
        "container: "@ + container_id.take(SHORT_ID_LENGTH as int)
    }
}

/// What is shown of the container `container_id`.
pub fn container_info(container_id: &str) -> (r: String)
    ensures
        r@ == container_text(container_id@),
{
    let n = container_id.unicode_len();
    if n == 0 {
        "external".to_owned()
    } else {
        let shown = if n <= SHORT_ID_LENGTH { n } else { SHORT_ID_LENGTH };
        let head = container_id.substring_char(0, shown);
        proof {
            if n <= SHORT_ID_LENGTH {
                assert(container_id@.subrange(0, shown as int) =~= container_id@);
            } else {
                assert(container_id@.subrange(0, shown as int) =~= container_id@.take(
                    SHORT_ID_LENGTH as int,
                ));
            }
        }
        concat("container: ", head)
    }
}

/// Whether `line` reports the app `app` that is on file under `url`.
pub open spec fn reports(line: AppStatus, url: Seq<char>, app: DiscoveredApp) -> bool {
    &&& line.url@ == url
    &&& line.name@ == app.name@
    &&& line.container_info@ == container_text(app.container_id@)
}

/// Check adapter status: the flags and the time of the last cycle as they
/// are in the state and, once first-boot setup is done, one line for each
/// app on file.
pub fn check_status(state: &State) -> (report: StatusReport)
    ensures
        report.first_boot_completed == state.first_boot_completed,
        report.authelia_sync_completed == state.authelia_sync_completed,
        report.last_sync == state.last_sync,
        !state.first_boot_completed ==> report.apps@.len() == 0,
        state.first_boot_completed ==> {
            &&& report.apps@.len() == state.discovered_apps@.len()
            &&& forall|i: int|
                0 <= i < report.apps@.len() ==> state.discovered_apps@.contains_key(
                    (#[trigger] report.apps@[i]).url@,
                ) && reports(
                    report.apps@[i],
                    report.apps@[i].url@,
                    state.discovered_apps@[report.apps@[i].url@],
                )
            &&& forall|i: int, j: int|
                0 <= i < j < report.apps@.len() ==> (#[trigger] report.apps@[i]).url@ != (
                #[trigger] report.apps@[j]).url@
        },
{
    let mut apps: Vec<AppStatus> = Vec::new();
    if state.first_boot_completed {
        let entries = state.discovered_apps.entries();
        let n = state.discovered_apps.len();
        proof {
            state.discovered_apps.lemma_finite();
            entry_keys(entries@).unique_seq_to_set();
            assert(state.discovered_apps@.dom() =~= entry_keys(entries@).to_set());
        }
        let mut i: usize = 0;
        while i < entries.len()
            invariant
                i <= entries.len(),
                entry_keys(entries@).no_duplicates(),
                entries_map(entries@) == state.discovered_apps@,
                apps@.len() == i,
                forall|k: int|
                    0 <= k < i ==> (#[trigger] apps@[k]).url@ == entries@[k].0@ && reports(
                        apps@[k],
                        entries@[k].0@,
                        entries@[k].1,
                    ),
            decreases entries.len() - i,
        {
            let entry = &entries[i];
            apps.push(
                AppStatus {
                    name: entry.1.name.clone(),
                    url: entry.0.clone(),
                    container_info: container_info(entry.1.container_id.as_str()),
                },
            );
            i += 1;
        }
        proof {
            assert forall|k: int| 0 <= k < apps@.len() implies state.discovered_apps@.contains_key(
                (#[trigger] apps@[k]).url@,
            ) && reports(apps@[k], apps@[k].url@, state.discovered_apps@[apps@[k].url@]) by {
                let keys = entry_keys(entries@);
                assert(keys[k] == entries@[k].0@);
                assert(keys.contains(entries@[k].0@));
                let j = keys.index_of(entries@[k].0@);
                assert(keys[j] == keys[k]);
                assert(j == k);
            }
            assert forall|a: int, b: int| 0 <= a < b < apps@.len() implies (#[trigger] apps@[a]).url@
                != (#[trigger] apps@[b]).url@ by {
                let keys = entry_keys(entries@);
                assert(keys[a] == entries@[a].0@);
                assert(keys[b] == entries@[b].0@);
            }
        }
    }
    StatusReport {
        first_boot_completed: state.first_boot_completed,
        authelia_sync_completed: state.authelia_sync_completed,
        last_sync: state.last_sync,
        apps,
    }
}

} // verus!
