//! One cycle of reconciliation, as a sequence of steps.
//!
//! The cycle asks for the boards it may write to and for the apps that the
//! dashboard has, takes the entries of the registry, and then goes through
//! the entries in their order. Each entry is created or updated on the
//! dashboard once; after that each board is read, and saved with a tile for
//! the app unless it shows the app already. A board from which the app's
//! URL was removed is neither read nor saved for that app.
//!
//! The caller performs what each step asks for and reports back with the
//! handler that belongs to it. A failure on one entry or one board is
//! reported with the step and does not end the cycle.

use vstd::prelude::*;
use crate::board::{Board, BoardInfo, shows_app, items_in_range};
use crate::error::AdapterError;
use crate::homarr::{BoardPlan, HomarrClient, SelectableApp, Upsert, first_linking, has_explicit_position, app_attempt, answered, accepted};
use crate::http::{Reply, Request, success, delivered};
use crate::registry::{AppDefinition, RegistryEntry};
use crate::state::{State, Timestamp};
use crate::text::opt_text;

verus! {

/// What the cycle is waiting for.
#[derive(Debug, Clone, Copy, PartialEq, Eq, Structural)]
pub enum SyncPhase {
    AwaitBoards,
    AwaitApps,
    AwaitEntries,
    AwaitUpsert,
    AwaitBoard,
    AwaitSave,
    Done,
}

/// What the caller is to do next.
#[derive(Debug)]
pub enum SyncAction {
    /// Ask for the writable boards; report with `on_boards`.
    FetchBoards(Request),
    /// Ask for all apps; report with `on_apps`.
    FetchApps(Request),
    /// Load the registry; report with `on_entries`.
    LoadEntries,
    /// Create or update an app; report with `on_upsert`.
    Upsert(Request),
    /// Read a board; report with `on_board`.
    ReadBoard(Request),
    /// Save a board; report with `on_saved`.
    SaveBoard(Request),
    /// The cycle is complete: write the state out.
    Finish,
    /// There is no board to write to: nothing was done and nothing is to be
    /// written.
    Skip,
    /// The report does not answer what was asked; nothing has changed.
    OutOfTurn,
}

/// The outcome of one step.
#[derive(Debug)]
pub struct SyncStep {
    pub action: SyncAction,
    /// What went wrong with what was reported, if anything did. It is for
    /// the log: the cycle has gone on.
    pub failure: Option<AdapterError>,
    /// Whether the report completed an app on a board.
    pub synced: bool,
}

/// A cycle of reconciliation in progress.
#[derive(Debug)]
pub struct SyncCycle {
    pub phase: SyncPhase,
    /// The boards that are written to.
    pub boards: Vec<BoardInfo>,
    /// The apps that the dashboard had when the cycle began.
    pub apps: Vec<SelectableApp>,
    /// The visible entries of the registry, in their order.
    pub entries: Vec<RegistryEntry>,
    /// The entry that is being dealt with.
    pub entry: usize,
    /// The board that is being dealt with.
    pub board: usize,
    /// The id that the dashboard has for the current entry's app.
    pub app_id: Option<String>,
    /// The id of the app that is being updated, while it is.
    pub updating: Option<String>,
}

/// The entries that are not hidden, in their order.
pub open spec fn visible_of(entries: Seq<RegistryEntry>) -> Seq<RegistryEntry>
    decreases entries.len(),
{
    if entries.len() == 0 {
        Seq::empty()
    } else if entries.last().app.visible {
        visible_of(entries.drop_last()).push(entries.last())
    } else {
        visible_of(entries.drop_last())
    }
}

/// Drops the hidden entries.
pub fn visible_entries(entries: Vec<RegistryEntry>) -> (visible: Vec<RegistryEntry>)
    ensures
        visible@ == visible_of(entries@),
{
    let mut visible: Vec<RegistryEntry> = Vec::new();
    assert(entries@.take(0) =~= Seq::<RegistryEntry>::empty());
    for entry in iter: entries
        invariant
            iter.seq() == entries@,
            visible@ == visible_of(entries@.take(iter.index() as int)),
    {
        proof {
            let next = entries@.take(iter.index() + 1);
            assert(next.drop_last() =~= entries@.take(iter.index() as int));
            assert(next.last() == entry);
        }
        if entry.app.is_visible() {
            visible.push(entry);
        }
    }
    assert(entries@.take(entries@.len() as int) =~= entries@);
    visible
}

/// Whether `url` was taken off `board`, by the removal sets `removed`.
pub open spec fn removed_in(removed: Map<Seq<char>, Set<Seq<char>>>, board: Seq<char>, url: Seq<char>) -> bool {
    removed.contains_key(board) && removed[board].contains(url)
}

/// The first board from `from` on that `url` was not removed from; the
/// number of boards where there is none.
pub open spec fn next_board(
    removed: Map<Seq<char>, Set<Seq<char>>>,
    boards: Seq<BoardInfo>,
    url: Seq<char>,
    from: int,
) -> int
    decreases boards.len() - from,
{
    if from >= boards.len() {
        boards.len() as int
    } else if from >= 0 && !removed_in(removed, boards[from].id@, url) {
        from
    } else {
        next_board(removed, boards, url, from + 1)
    }
}

/// What `next_board` returns is a board that `url` was not removed from,
/// and `url` was removed from every board between `from` and it.
pub proof fn lemma_next_board(
    removed: Map<Seq<char>, Set<Seq<char>>>,
    boards: Seq<BoardInfo>,
    url: Seq<char>,
    from: int,
)
    requires
        0 <= from,
    ensures
        from <= next_board(removed, boards, url, from) || next_board(removed, boards, url, from)
            == boards.len(),
        next_board(removed, boards, url, from) <= boards.len(),
        next_board(removed, boards, url, from) < boards.len() ==> !removed_in(
            removed,
            boards[next_board(removed, boards, url, from)].id@,
            url,
        ),
        forall|b: int|
            from <= b < next_board(removed, boards, url, from) ==> removed_in(
                removed,
                (#[trigger] boards[b]).id@,
                url,
            ),
    decreases boards.len() - from,
{
    if from < boards.len() && removed_in(removed, boards[from].id@, url) {
        lemma_next_board(removed, boards, url, from + 1);
    }
}

impl SyncCycle {
    /// The boards, the apps and the entries are those of `other`.
    pub open spec fn same_data(self, other: SyncCycle) -> bool {
        &&& self.boards == other.boards
        &&& self.apps == other.apps
        &&& self.entries == other.entries
    }

    /// The cycle is dealing with an entry.
    pub open spec fn at_entry(self) -> bool {
        self.entry < self.entries@.len()
    }

    /// The cycle is dealing with a board for an entry whose app is on the
    /// dashboard.
    pub open spec fn at_board(self) -> bool {
        &&& self.entry < self.entries@.len()
        &&& self.board < self.boards@.len()
        &&& self.app_id is Some
    }

    /// The URL of the current entry.
    pub open spec fn url(self) -> Seq<char> {
        self.entries@[self.entry as int].app.url@
    }

    /// `self` has turned to the entry `e`: it is about to create or update
    /// that entry's app, or is done where there is no such entry.
    pub open spec fn turned_to(self, e: int) -> bool {
        &&& self.entry == e
        &&& self.board == 0
        &&& self.app_id is None
        &&& if e < self.entries@.len() {
            &&& self.phase == SyncPhase::AwaitUpsert
            &&& opt_text(self.updating) == match first_linking(
                self.apps@,
                self.entries@[e].app.url@,
            ) {
                Some(i) => Some(self.apps@[i].id@),
                None => None,
            }
        } else {
            &&& self.phase == SyncPhase::Done
            &&& self.updating is None
        }
    }

    /// `next` is where the cycle `self` stands once the boards before
    /// `from` are dealt with for the current entry: at the first board from
    /// `from` on that the entry's URL was not removed from, or, where there
    /// is none, at the next entry.
    pub open spec fn goes_on(self, removed: Map<Seq<char>, Set<Seq<char>>>, from: int, next: SyncCycle) -> bool {
        let b = next_board(removed, self.boards@, self.url(), from);
        &&& next.same_data(self)
        &&& if b < self.boards@.len() {
            &&& next.phase == SyncPhase::AwaitBoard
            &&& next.entry == self.entry
            &&& next.board == b
            &&& next.app_id == self.app_id
            &&& next.updating is None
        } else {
            next.turned_to(self.entry + 1)
        }
    }

    /// `action` asks for what the cycle `self` is waiting for.
    pub open spec fn announces(self, client: HomarrClient, action: SyncAction) -> bool {
        match self.phase {
            SyncPhase::AwaitBoard => {
                &&& action matches SyncAction::ReadBoard(request)
                &&& client.gets(
                    request,
                    HomarrClient::board_path(self.boards@[self.board as int].name@),
                )
            },
            SyncPhase::AwaitUpsert => {
                &&& action matches SyncAction::Upsert(request)
                &&& client.upserts_by(
                    self.entries@[self.entry as int].app,
                    self.apps@,
                    request,
                )
            },
            SyncPhase::Done => action is Finish,
            _ => false,
        }
    }

    /// How a step leaves the state: the removal sets, the key and the flags
    /// as they were; the time of the last cycle set to `now` where the step
    /// ended the cycle.
    pub open spec fn keeps(self, before: State, after: State, now: Timestamp) -> bool {
        &&& after.version == before.version
        &&& after.first_boot_completed == before.first_boot_completed
        &&& after.authelia_sync_completed == before.authelia_sync_completed
        &&& after.api_key == before.api_key
        &&& after.removed_apps_by_board@ == before.removed_apps_by_board@
        &&& after.last_sync == if self.phase == SyncPhase::Done {
            Some(now)
        } else {
            before.last_sync
        }
    }

    fn turn_to(&mut self, client: &HomarrClient, state: &mut State, e: usize, now: Timestamp) -> (action:
        SyncAction)
        ensures
            final(self).same_data(*old(self)),
            final(self).turned_to(e as int),
            final(self).announces(*client, action),
            final(self).keeps(*old(state), *final(state), now),
            final(state).discovered_apps@ == old(state).discovered_apps@,
    {
        self.entry = e;
        self.board = 0;
        self.app_id = None;
        if e < self.entries.len() {
            self.phase = SyncPhase::AwaitUpsert;
            match client.add_registry_app(&self.entries[e].app, &self.apps) {
                Upsert::Update { id, request } => {
                    self.updating = Some(id);
                    SyncAction::Upsert(request)
                },
                Upsert::Create { request } => {
                    self.updating = None;
                    SyncAction::Upsert(request)
                },
            }
        } else {
            self.phase = SyncPhase::Done;
            self.updating = None;
            state.set_sync_time(now);
            SyncAction::Finish
        }
    }

    fn proceed(&mut self, client: &HomarrClient, state: &mut State, from: usize, now: Timestamp) -> (action:
        SyncAction)
        requires
            old(self).entry < old(self).entries@.len(),
            from <= old(self).boards@.len(),
            old(self).entry < usize::MAX,
        ensures
            old(self).goes_on(old(state).removed(), from as int, *final(self)),
            final(self).announces(*client, action),
            final(self).keeps(*old(state), *final(state), now),
            final(state).discovered_apps@ == old(state).discovered_apps@,
    {
        let mut b = from;
        while b < self.boards.len() && state.is_removed_from_board(
            self.boards[b].id.as_str(),
            self.entries[self.entry].app.url.as_str(),
        )
            invariant
                from <= b <= self.boards@.len(),
                self.entry < self.entries@.len(),
                *self == *old(self),
                *state == *old(state),
                next_board(state.removed(), self.boards@, self.url(), from as int) == next_board(
                    state.removed(),
                    self.boards@,
                    self.url(),
                    b as int,
                ),
            decreases self.boards@.len() - b,
        {
            b += 1;
        }
        if b < self.boards.len() {
            self.phase = SyncPhase::AwaitBoard;
            self.board = b;
            self.updating = None;
            SyncAction::ReadBoard(client.board_by_name_request(self.boards[b].name.as_str()))
        } else {
            let e = self.entry + 1;
            self.turn_to(client, state, e, now)
        }
    }

    /// Begins a cycle on the boards `boards`, which the caller has chosen:
    /// the apps are asked for. Without a board there is nothing to do.
    pub fn start_with(client: &HomarrClient, boards: Vec<BoardInfo>) -> (r: (SyncCycle, SyncAction))
        ensures
            r.0.boards == boards,
            r.0.apps@.len() == 0 && r.0.entries@.len() == 0,
            r.0.entry == 0 && r.0.board == 0 && r.0.app_id is None && r.0.updating is None,
            if boards@.len() > 0 {
                &&& r.0.phase == SyncPhase::AwaitApps
                &&& r.1 matches SyncAction::FetchApps(request)
                &&& client.gets(request, "/api/trpc/app.selectable"@)
            } else {
                r.0.phase == SyncPhase::Done && r.1 is Skip
            },
    {
        let nothing = boards.len() == 0;
        let cycle = SyncCycle {
            phase: if nothing { SyncPhase::Done } else { SyncPhase::AwaitApps },
            boards,
            apps: Vec::new(),
            entries: Vec::new(),
            entry: 0,
            board: 0,
            app_id: None,
            updating: None,
        };
        if nothing {
            (cycle, SyncAction::Skip)
        } else {
            (cycle, SyncAction::FetchApps(client.all_apps_request()))
        }
    }

    /// Begins a cycle: the writable boards are asked for.
    pub fn start(client: &HomarrClient) -> (r: (SyncCycle, SyncAction))
        ensures
            r.0.phase == SyncPhase::AwaitBoards,
            r.0.boards@.len() == 0 && r.0.apps@.len() == 0 && r.0.entries@.len() == 0,
            r.0.entry == 0 && r.0.board == 0 && r.0.app_id is None && r.0.updating is None,
            r.1 matches SyncAction::FetchBoards(request) && client.gets(
                request,
                "/api/trpc/board.getAllBoards"@,
            ),
    {
        let cycle = SyncCycle {
            phase: SyncPhase::AwaitBoards,
            boards: Vec::new(),
            apps: Vec::new(),
            entries: Vec::new(),
            entry: 0,
            board: 0,
            app_id: None,
            updating: None,
        };
        (cycle, SyncAction::FetchBoards(client.writable_boards_request()))
    }
}

/// The boards that an answer lists; none where the answer is no success.
pub open spec fn listed<T>(reply: Reply<Vec<T>>) -> Seq<T> {
    match reply {
        Reply::Answer { status, decoded: Ok(list), .. } if success(status) => list@,
        _ => Seq::empty(),
    }
}

/// Whether an answer is a success that holds what was expected.
pub open spec fn holds<T>(reply: Reply<T>) -> bool {
    reply matches Reply::Answer { status, decoded: Ok(_), .. } && success(status)
}

/// What an answer holds.
pub open spec fn held<T>(reply: Reply<T>) -> T {
    reply->decoded->Ok_0
}

/// The id under which the dashboard has an app after the request for it
/// was answered with `reply`: the id of the app that was updated, or the id
/// that the answer gives the app that was created; none where the request
/// failed.
pub open spec fn upserted_id(updating: Option<String>, reply: Reply<String>) -> Option<String> {
    match reply {
        Reply::Answer { status, decoded, .. } if success(status) => match updating {
            Some(id) => Some(id),
            None => match decoded {
                Ok(id) => Some(id),
                Err(_) => None,
            },
        },
        _ => None,
    }
}

/// The failure that a request for an app ended in.
pub open spec fn upsert_failure(updating: Option<String>, app: AppDefinition, reply: Reply<String>, e: AdapterError) -> bool {
    match updating {
        Some(_) => accepted(reply, app_attempt("update"@, app.name@), Err(e)),
        None => answered(reply, app_attempt("create"@, app.name@), Err::<String, AdapterError>(e)),
    }
}

/// The failure that reading a board ended in.
pub open spec fn read_failure(reply: Reply<Board>, e: AdapterError) -> bool {
    match reply {
        Reply::Failed(why) => e == AdapterError::Http(why),
        Reply::Answer { status, text, decoded } => if !success(status) {
            e matches AdapterError::NotFound(m) && m@ == "Board not found"@
        } else {
            decoded matches Err(why) && e == AdapterError::Json(why)
        },
    }
}

/// The container that an app runs in, as it is put on file: empty for an
/// app that runs in none.
pub open spec fn container_of(app: AppDefinition) -> Seq<char> {
    match app.app_type.container_name {
        Some(name) => name@,
        None => Seq::empty(),
    }
}

/// `after` is `before` with `app` put on file at the time `now`.
pub open spec fn files(before: State, after: State, app: AppDefinition, now: Timestamp) -> bool {
    let url = app.url@;
    &&& after.discovered_apps@.dom() == before.discovered_apps@.dom().insert(url)
    &&& forall|u: Seq<char>|
        u != url && before.discovered_apps@.contains_key(u) ==> after.discovered_apps@[u]
            == before.discovered_apps@[u]
    &&& after.discovered_apps@[url].name@ == app.name@
    &&& after.discovered_apps@[url].container_id@ == container_of(app)
    &&& after.discovered_apps@[url].added_at == if before.discovered_apps@.contains_key(url) {
        before.discovered_apps@[url].added_at
    } else {
        now
    }
}

impl SyncStep {
    /// A step that changed nothing.
    pub open spec fn out_of_turn(self) -> bool {
        self.action is OutOfTurn && self.failure is None && !self.synced
    }
}

impl SyncCycle {
    /// `self` with `id` as the id of the current entry's app.
    pub open spec fn with_app(self, id: String) -> SyncCycle {
        SyncCycle { app_id: Some(id), updating: None, ..self }
    }

    /// The current entry's app.
    pub open spec fn app(self) -> AppDefinition {
        self.entries@[self.entry as int].app
    }

    /// Takes the answer to the question for the writable boards.
    ///
    /// Without a board to write to there is nothing to do: the cycle ends
    /// and nothing is written out. A question that failed counts as no
    /// board.
    pub fn on_boards(&mut self, client: &HomarrClient, reply: Reply<Vec<BoardInfo>>) -> (step:
        SyncStep)
        ensures
            final(self).apps == old(self).apps,
            final(self).entries == old(self).entries,
            final(self).entry == old(self).entry,
            final(self).board == old(self).board,
            final(self).app_id == old(self).app_id,
            final(self).updating == old(self).updating,
            !step.synced,
            if old(self).phase != SyncPhase::AwaitBoards {
                step.out_of_turn() && *final(self) == *old(self)
            } else if listed(reply).len() > 0 {
                &&& final(self).phase == SyncPhase::AwaitApps
                &&& final(self).boards@ == listed(reply)
                &&& step.action matches SyncAction::FetchApps(request)
                &&& client.gets(request, "/api/trpc/app.selectable"@)
                &&& step.failure is None
            } else {
                &&& final(self).phase == SyncPhase::Done
                &&& final(self).boards@.len() == 0
                &&& step.action is Skip
                &&& match step.failure {
                    Some(e) => answered(
                        reply,
                        "Failed to fetch boards"@,
                        Err::<Vec<BoardInfo>, AdapterError>(e),
                    ),
                    None => holds(reply),
                }
            },
    {
        if self.phase != SyncPhase::AwaitBoards {
            return SyncStep { action: SyncAction::OutOfTurn, failure: None, synced: false };
        }
        let (boards, failure) = match client.get_writable_boards(reply) {
            Ok(boards) => (boards, None),
            Err(e) => (Vec::new(), Some(e)),
        };
        if boards.len() == 0 {
            self.phase = SyncPhase::Done;
            self.boards = boards;
            SyncStep { action: SyncAction::Skip, failure, synced: false }
        } else {
            self.phase = SyncPhase::AwaitApps;
            self.boards = boards;
            SyncStep {
                action: SyncAction::FetchApps(client.all_apps_request()),
                failure,
                synced: false,
            }
        }
    }

    /// Takes the answer to the question for all apps.
    ///
    /// The list serves the whole cycle. A question that failed counts as
    /// an empty list: the cycle goes on, at the risk of creating an app
    /// that exists.
    pub fn on_apps(&mut self, client: &HomarrClient, reply: Reply<Vec<SelectableApp>>) -> (step:
        SyncStep)
        ensures
            final(self).boards == old(self).boards,
            final(self).entries == old(self).entries,
            final(self).entry == old(self).entry,
            final(self).board == old(self).board,
            final(self).app_id == old(self).app_id,
            final(self).updating == old(self).updating,
            !step.synced,
            if old(self).phase != SyncPhase::AwaitApps {
                step.out_of_turn() && *final(self) == *old(self)
            } else {
                &&& final(self).phase == SyncPhase::AwaitEntries
                &&& final(self).apps@ == listed(reply)
                &&& step.action is LoadEntries
                &&& step.failure is None <==> holds(reply)
            },
    {
        if self.phase != SyncPhase::AwaitApps {
            return SyncStep { action: SyncAction::OutOfTurn, failure: None, synced: false };
        }
        let (apps, failure) = match client.get_all_apps(reply) {
            Ok(apps) => (apps, None),
            Err(e) => (Vec::new(), Some(e)),
        };
        self.apps = apps;
        self.phase = SyncPhase::AwaitEntries;
        SyncStep { action: SyncAction::LoadEntries, failure, synced: false }
    }

    /// Takes the entries of the registry, or the reason why there are
    /// none, and turns to the first entry that is not hidden.
    pub fn on_entries(
        &mut self,
        client: &HomarrClient,
        state: &mut State,
        loaded: Result<Vec<RegistryEntry>, AdapterError>,
        now: Timestamp,
    ) -> (step: SyncStep)
        ensures
            final(self).boards == old(self).boards,
            final(self).apps == old(self).apps,
            !step.synced,
            if old(self).phase != SyncPhase::AwaitEntries {
                &&& step.out_of_turn()
                &&& *final(self) == *old(self)
                &&& *final(state) == *old(state)
            } else {
                &&& final(self).entries@ == match loaded {
                    Ok(entries) => visible_of(entries@),
                    Err(_) => Seq::empty(),
                }
                &&& step.failure == match loaded {
                    Ok(_) => None,
                    Err(e) => Some(e),
                }
                &&& final(self).turned_to(0)
                &&& final(self).announces(*client, step.action)
                &&& final(self).keeps(*old(state), *final(state), now)
                &&& final(state).discovered_apps@ == old(state).discovered_apps@
            },
    {
        if self.phase != SyncPhase::AwaitEntries {
            return SyncStep { action: SyncAction::OutOfTurn, failure: None, synced: false };
        }
        let (entries, failure) = match loaded {
            Ok(entries) => (visible_entries(entries), None),
            Err(e) => (Vec::new(), Some(e)),
        };
        self.entries = entries;
        let action = self.turn_to(client, state, 0, now);
        SyncStep { action, failure, synced: false }
    }

    /// Takes the answer to the request that creates or updates the current
    /// entry's app.
    ///
    /// The app is put on file whether or not the request went through.
    /// With the app on the dashboard the cycle goes on to the boards;
    /// without, it goes on to the next entry.
    pub fn on_upsert(
        &mut self,
        client: &HomarrClient,
        state: &mut State,
        reply: Reply<String>,
        now: Timestamp,
    ) -> (step: SyncStep)
        ensures
            !step.synced,
            if !(old(self).phase == SyncPhase::AwaitUpsert && old(self).at_entry()) {
                &&& step.out_of_turn()
                &&& *final(self) == *old(self)
                &&& *final(state) == *old(state)
            } else {
                &&& files(*old(state), *final(state), old(self).app(), now)
                &&& final(self).keeps(*old(state), *final(state), now)
                &&& final(self).announces(*client, step.action)
                &&& match upserted_id(old(self).updating, reply) {
                    Some(id) => {
                        &&& step.failure is None
                        &&& old(self).with_app(id).goes_on(old(state).removed(), 0, *final(self))
                    },
                    None => {
                        &&& step.failure matches Some(e)
                        &&& upsert_failure(old(self).updating, old(self).app(), reply, e)
                        &&& final(self).same_data(*old(self))
                        &&& final(self).turned_to(old(self).entry + 1)
                    },
                }
            },
    {
        if !(self.phase == SyncPhase::AwaitUpsert && self.entry < self.entries.len()) {
            return SyncStep { action: SyncAction::OutOfTurn, failure: None, synced: false };
        }
        let mut updating = None;
        std::mem::swap(&mut updating, &mut self.updating);
        let app = &self.entries[self.entry].app;
        let outcome = match updating {
            Some(id) => client.update_registry_app(id, app, reply),
            None => client.create_registry_app(app, reply),
        };
        let container = match app.container_name() {
            Some(name) => name,
            None => "",
        };
        state.record_discovered(app.url.as_str(), app.name.as_str(), container, now);
        let ghost filed = *state;
        proof {
            reveal_strlit("");
            assert(container@ =~= container_of(*app));
        }
        match outcome {
            Ok(id) => {
                self.app_id = Some(id);
                let action = self.proceed(client, state, 0, now);
                SyncStep { action, failure: None, synced: false }
            },
            Err(e) => {
                let next = self.entry + 1;
                let action = self.turn_to(client, state, next, now);
                SyncStep { action, failure: Some(e), synced: false }
            },
        }
    }

    /// What `on_board` does with a board that was read for the current
    /// entry.
    pub open spec fn places(
        self,
        client: HomarrClient,
        removed: Map<Seq<char>, Set<Seq<char>>>,
        board: Board,
        next: SyncCycle,
        step: SyncStep,
    ) -> bool {
        let app_id = self.app_id->0@;
        if removed_in(removed, board.id@, self.url()) {
            &&& !step.synced
            &&& step.failure is None
            &&& self.goes_on(removed, self.board + 1, next)
            &&& next.announces(client, step.action)
        } else if shows_app(board.items@, app_id) {
            &&& step.synced
            &&& step.failure is None
            &&& self.goes_on(removed, self.board + 1, next)
            &&& next.announces(client, step.action)
        } else if !has_explicit_position(self.app()) && !items_in_range(board.items@) {
            &&& !step.synced
            &&& step.failure matches Some(AdapterError::HomarrApi(m))
            &&& m@ == crate::homarr::OUT_OF_RANGE@
            &&& self.goes_on(removed, self.board + 1, next)
            &&& next.announces(client, step.action)
        } else {
            &&& !step.synced
            &&& step.failure is None
            &&& next == (SyncCycle { phase: SyncPhase::AwaitSave, ..self })
            &&& step.action matches SyncAction::SaveBoard(request)
            &&& client.board_plan(app_id, self.app(), board, Ok(BoardPlan::Append { request }))
        }
    }

    /// Takes the board that was read for the current entry.
    ///
    /// A board from which the entry's URL was removed in the meantime is
    /// passed over, whether the removal is on file under the id by which
    /// the board was listed or under the id that the board itself reports.
    /// A board that shows the app is complete. Any other board is saved
    /// with a new item for the app. A board that could not be read or
    /// cannot take the item is a failure of this board alone.
    pub fn on_board(
        &mut self,
        client: &HomarrClient,
        state: &mut State,
        reply: Reply<Board>,
        now: Timestamp,
    ) -> (step: SyncStep)
        ensures
            step.action is SaveBoard ==> old(self).at_board() && holds(reply) && !old(
                state,
            ).is_removed(old(self).boards@[old(self).board as int].id@, old(self).url()) && !old(
                state,
            ).is_removed(held(reply).id@, old(self).url()),
            if !(old(self).phase == SyncPhase::AwaitBoard && old(self).at_board()) {
                &&& step.out_of_turn()
                &&& *final(self) == *old(self)
                &&& *final(state) == *old(state)
            } else {
                &&& final(self).keeps(*old(state), *final(state), now)
                &&& final(state).discovered_apps@ == old(state).discovered_apps@
                &&& if old(state).is_removed(
                    old(self).boards@[old(self).board as int].id@,
                    old(self).url(),
                ) {
                    &&& !step.synced
                    &&& step.failure is None
                    &&& old(self).goes_on(old(state).removed(), old(self).board + 1, *final(self))
                    &&& final(self).announces(*client, step.action)
                } else if holds(reply) {
                    old(self).places(*client, old(state).removed(), held(reply), *final(self), step)
                } else {
                    &&& !step.synced
                    &&& step.failure matches Some(e)
                    &&& read_failure(reply, e)
                    &&& old(self).goes_on(old(state).removed(), old(self).board + 1, *final(self))
                    &&& final(self).announces(*client, step.action)
                }
            },
    {
        if !(self.phase == SyncPhase::AwaitBoard && self.entry < self.entries.len() && self.board
            < self.boards.len() && self.app_id.is_some()) {
            return SyncStep { action: SyncAction::OutOfTurn, failure: None, synced: false };
        }
        let next = self.board + 1;
        if state.is_removed_from_board(
            self.boards[self.board].id.as_str(),
            self.entries[self.entry].app.url.as_str(),
        ) {
            let action = self.proceed(client, state, next, now);
            return SyncStep { action, failure: None, synced: false };
        }
        let board = match client.get_board_by_name(reply) {
            Ok(board) => board,
            Err(e) => {
                let action = self.proceed(client, state, next, now);
                return SyncStep { action, failure: Some(e), synced: false };
            },
        };
        if state.is_removed_from_board(
            board.id.as_str(),
            self.entries[self.entry].app.url.as_str(),
        ) {
            let action = self.proceed(client, state, next, now);
            return SyncStep { action, failure: None, synced: false };
        }
        let plan = match &self.app_id {
            Some(id) => client.add_registry_app_to_board(
                id.as_str(),
                &self.entries[self.entry].app,
                board,
            ),
            None => Ok(BoardPlan::AlreadyPresent),
        };
        match plan {
            Ok(BoardPlan::AlreadyPresent) => {
                let action = self.proceed(client, state, next, now);
                SyncStep { action, failure: None, synced: true }
            },
            Ok(BoardPlan::Append { request }) => {
                self.phase = SyncPhase::AwaitSave;
                SyncStep { action: SyncAction::SaveBoard(request), failure: None, synced: false }
            },
            Err(e) => {
                let action = self.proceed(client, state, next, now);
                SyncStep { action, failure: Some(e), synced: false }
            },
        }
    }

    /// Takes the answer to the request that saved a board, and goes on to
    /// the next board.
    pub fn on_saved(
        &mut self,
        client: &HomarrClient,
        state: &mut State,
        reply: Reply<()>,
        now: Timestamp,
    ) -> (step: SyncStep)
        ensures
            if !(old(self).phase == SyncPhase::AwaitSave && old(self).at_board()) {
                &&& step.out_of_turn()
                &&& *final(self) == *old(self)
                &&& *final(state) == *old(state)
            } else {
                &&& final(self).keeps(*old(state), *final(state), now)
                &&& final(state).discovered_apps@ == old(state).discovered_apps@
                &&& old(self).goes_on(old(state).removed(), old(self).board + 1, *final(self))
                &&& final(self).announces(*client, step.action)
                &&& match reply {
                    Reply::Failed(why) => !step.synced && step.failure == Some(
                        AdapterError::Http(why),
                    ),
                    Reply::Answer { .. } => step.synced && step.failure is None,
                }
            },
    {
        if !(self.phase == SyncPhase::AwaitSave && self.entry < self.entries.len() && self.board
            < self.boards.len() && self.app_id.is_some()) {
            return SyncStep { action: SyncAction::OutOfTurn, failure: None, synced: false };
        }
        let next = self.board + 1;
        let outcome = delivered(reply);
        let action = self.proceed(client, state, next, now);
        match outcome {
            Ok(_) => SyncStep { action, failure: None, synced: true },
            Err(e) => SyncStep { action, failure: Some(e), synced: false },
        }
    }
}

/// A board from which a URL was removed is not read for that URL, and so
/// never saved with an item for it; the first board after it from which the
/// URL was not removed is served as if the other were not there.
pub proof fn law_removed_board_is_passed_over(
    cycle: SyncCycle,
    removed: Map<Seq<char>, Set<Seq<char>>>,
    from: int,
    next: SyncCycle,
)
    requires
        0 <= from,
        cycle.goes_on(removed, from, next),
    ensures
        next.phase == SyncPhase::AwaitBoard ==> {
            &&& from <= next.board < cycle.boards@.len()
            &&& !removed_in(removed, cycle.boards@[next.board as int].id@, cycle.url())
        },
        forall|b: int|
            from <= b < cycle.boards@.len() && (next.phase != SyncPhase::AwaitBoard || b
                < next.board) ==> removed_in(removed, (#[trigger] cycle.boards@[b]).id@, cycle.url()),
{
    lemma_next_board(removed, cycle.boards@, cycle.url(), from);
}

/// Removal is kept per board: marking a URL as removed from one board
/// removes it from that board and changes nothing for any other board.
pub proof fn law_removal_is_per_board(
    before: State,
    after: State,
    board: Seq<char>,
    url: Seq<char>,
    other: Seq<char>,
    any: Seq<char>,
)
    requires
        after.removed() == before.removed().insert(
            board,
            before.removed_from(board).insert(url),
        ),
        other != board,
    ensures
        after.is_removed(board, url),
        after.is_removed(other, any) == before.is_removed(other, any),
        before.is_removed(board, any) ==> after.is_removed(board, any),
{
}

/// The cycle only moves forward: it goes on at the same entry and a later
/// board, or at the next entry. So no entry is created or updated twice in
/// a cycle, and no board is read twice for one entry.
pub proof fn law_cycle_moves_forward(
    cycle: SyncCycle,
    removed: Map<Seq<char>, Set<Seq<char>>>,
    from: int,
    next: SyncCycle,
)
    requires
        0 <= from,
        cycle.at_entry(),
        cycle.goes_on(removed, from, next),
    ensures
        next.phase == SyncPhase::AwaitBoard ==> next.entry == cycle.entry && next.board >= from,
        next.phase != SyncPhase::AwaitBoard ==> next.entry == cycle.entry + 1,
        next.phase == SyncPhase::AwaitBoard || next.phase == SyncPhase::AwaitUpsert || next.phase
            == SyncPhase::Done,
        next.phase == SyncPhase::Done <==> next.entry >= cycle.entries@.len(),
{
    lemma_next_board(removed, cycle.boards@, cycle.url(), from);
}

/// A board is saved only in answer to its being read: whatever the cycle
/// asks for when it goes on, it is not the saving of a board. So every
/// board that is saved was read just before, and was looked up in the
/// removal sets when it was read.
pub proof fn law_only_a_board_that_was_read_is_saved(
    cycle: SyncCycle,
    client: HomarrClient,
    action: SyncAction,
)
    requires
        cycle.announces(client, action),
    ensures
        !(action is SaveBoard),
        action is ReadBoard || action is Upsert || action is Finish,
{
}

} // verus!
