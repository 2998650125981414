use homarr_container_adapter::board::{Board, BoardInfo, BoardItem, Layout, Section};
use homarr_container_adapter::error::AdapterError;
use homarr_container_adapter::homarr::{HomarrClient, SelectableApp};
use homarr_container_adapter::http::{Body, Payload, Reply, Request};
use homarr_container_adapter::registry::{
    load_all_apps, AppDefinition, AppType, LayoutConfig, RegistryEntry, RegistryFile,
};
use homarr_container_adapter::state::{State, Timestamp};
use homarr_container_adapter::sync::{visible_entries, SyncAction, SyncCycle, SyncPhase, SyncStep};

const NOW: Timestamp = Timestamp { secs: 1_700_000_000, nanos: 0 };

fn definition(name: &str, url: &str, priority: u8) -> AppDefinition {
    AppDefinition {
        name: name.to_string(),
        url: url.to_string(),
        description: None,
        icon_url: None,
        category: None,
        app_type: AppType::default(),
        ping_url: None,
        visible: true,
        layout: LayoutConfig { priority, ..LayoutConfig::default() },
    }
}

fn entry(name: &str, url: &str, priority: u8) -> RegistryEntry {
    RegistryEntry { file_path: format!("{}.toml", name), app: definition(name, url, priority) }
}

fn ok<T>(value: T) -> Reply<T> {
    Reply::Answer { status: 200, text: String::new(), decoded: Ok(value) }
}

fn board_info(id: &str, name: &str) -> BoardInfo {
    BoardInfo { id: id.to_string(), name: name.to_string() }
}

fn board(id: &str, name: &str, items: Vec<BoardItem>) -> Board {
    Board {
        id: id.to_string(),
        name: name.to_string(),
        sections: vec![Section { id: "sec".into(), kind: "empty".into(), y_offset: 0, x_offset: 0 }],
        layouts: vec![Layout { id: "lay".into(), name: "Base".into(), column_count: 12, breakpoint: 0 }],
        items,
    }
}

fn remote_app(id: &str, url: &str) -> SelectableApp {
    SelectableApp {
        id: id.to_string(),
        name: String::new(),
        icon_url: String::new(),
        href: Some(url.to_string()),
    }
}

fn request_of(step: SyncStep) -> Request {
    match step.action {
        SyncAction::FetchBoards(r)
        | SyncAction::FetchApps(r)
        | SyncAction::Upsert(r)
        | SyncAction::ReadBoard(r)
        | SyncAction::SaveBoard(r) => r,
        other => panic!("no request in {:?}", other),
    }
}

fn saved_items(request: Request) -> Vec<BoardItem> {
    match request.body {
        Body::Json(Payload::SaveBoard { items, .. }) => items,
        other => panic!("no board in {:?}", other),
    }
}

fn href_of(request: &Request) -> String {
    match &request.body {
        Body::Json(Payload::App(payload)) => payload.href.clone(),
        other => panic!("no app in {:?}", other),
    }
}

fn position_of(item: &BoardItem) -> (Option<i32>, Option<i32>) {
    let layouts = item.layouts.as_ref().unwrap();
    (layouts[0].x_offset, layouts[0].y_offset)
}

/// Begins a cycle and takes it to the first entry.
fn begin(
    client: &HomarrClient,
    state: &mut State,
    boards: Vec<BoardInfo>,
    apps: Vec<SelectableApp>,
    entries: Vec<RegistryEntry>,
) -> (SyncCycle, SyncStep) {
    let (mut cycle, action) = SyncCycle::start(client);
    match action {
        SyncAction::FetchBoards(r) => assert_eq!(r.url, "http://h/api/trpc/board.getAllBoards"),
        other => panic!("unexpected {:?}", other),
    }
    let step = cycle.on_boards(client, ok(boards));
    assert!(matches!(step.action, SyncAction::FetchApps(_)));
    let step = cycle.on_apps(client, ok(apps));
    assert!(matches!(step.action, SyncAction::LoadEntries));
    let step = cycle.on_entries(client, state, Ok(entries), NOW);
    (cycle, step)
}

#[test]
fn entries_are_placed_in_priority_order_side_by_side() {
    let client = HomarrClient::new("http://h").unwrap();
    let mut state = State::default();
    // The registry lists the apps in the order of their files; the order of
    // placement is that of their priorities.
    let files = vec![
        RegistryFile {
            file_name: "b.toml".into(),
            path: "b.toml".into(),
            parsed: Ok(definition("Two", "http://u2", 50)),
        },
        RegistryFile {
            file_name: "a.toml".into(),
            path: "a.toml".into(),
            parsed: Ok(definition("One", "http://u1", 10)),
        },
    ];
    let entries = load_all_apps(files);
    let (mut cycle, step) =
        begin(&client, &mut state, vec![board_info("b1", "home")], vec![], entries);

    // First entry: u1 is created.
    assert!(step.failure.is_none());
    let request = request_of(step);
    assert_eq!(request.url, "http://h/api/trpc/app.create");
    assert_eq!(href_of(&request), "http://u1");
    let step = cycle.on_upsert(&client, &mut state, ok("app-1".to_string()), NOW);
    let request = request_of(step);
    assert!(request.url.starts_with("http://h/api/trpc/board.getBoardByName?input="));

    // The board is empty: u1 goes to (0, 0).
    let step = cycle.on_board(&client, &mut state, ok(board("b1", "home", vec![])), NOW);
    assert!(matches!(step.action, SyncAction::SaveBoard(_)));
    let items = saved_items(request_of(step));
    assert_eq!(items.len(), 1);
    assert_eq!(items[0].app_id.as_deref(), Some("app-1"));
    assert_eq!(position_of(&items[0]), (Some(0), Some(0)));

    // Second entry: u2 is created and goes to (1, 0).
    let step = cycle.on_saved(&client, &mut state, ok(()), NOW);
    assert!(step.synced);
    let request = request_of(step);
    assert_eq!(href_of(&request), "http://u2");
    let step = cycle.on_upsert(&client, &mut state, ok("app-2".to_string()), NOW);
    assert!(matches!(step.action, SyncAction::ReadBoard(_)));
    let step = cycle.on_board(&client, &mut state, ok(board("b1", "home", items)), NOW);
    let items = saved_items(request_of(step));
    assert_eq!(items.len(), 2);
    assert_eq!(items[1].app_id.as_deref(), Some("app-2"));
    assert_eq!(position_of(&items[1]), (Some(1), Some(0)));

    // The cycle ends: the time is set and the state is to be written out.
    assert!(state.last_sync.is_none());
    let step = cycle.on_saved(&client, &mut state, ok(()), NOW);
    assert!(step.synced);
    assert!(matches!(step.action, SyncAction::Finish));
    assert_eq!(cycle.phase, SyncPhase::Done);
    assert_eq!(state.last_sync, Some(NOW));
    assert_eq!(state.discovered_apps.len(), 2);
    assert_eq!(state.discovered_apps.get("http://u1").unwrap().added_at, NOW);
}

#[test]
fn a_second_run_creates_nothing_and_places_nothing() {
    let client = HomarrClient::new("http://h").unwrap();
    let mut state = State::default();

    // First run, on an empty dashboard.
    let (mut cycle, step) = begin(
        &client,
        &mut state,
        vec![board_info("b1", "home")],
        vec![],
        vec![entry("One", "http://u1", 10)],
    );
    assert_eq!(request_of(step).url, "http://h/api/trpc/app.create");
    cycle.on_upsert(&client, &mut state, ok("app-1".to_string()), NOW);
    let step = cycle.on_board(&client, &mut state, ok(board("b1", "home", vec![])), NOW);
    let items = saved_items(request_of(step));
    let step = cycle.on_saved(&client, &mut state, ok(()), NOW);
    assert!(matches!(step.action, SyncAction::Finish));

    // Second run: the dashboard has what the first run made.
    let later = Timestamp { secs: NOW.secs + 300, nanos: 0 };
    let (mut cycle, step) = begin(
        &client,
        &mut state,
        vec![board_info("b1", "home")],
        vec![remote_app("app-1", "http://u1")],
        vec![entry("One", "http://u1", 10)],
    );
    let request = request_of(step);
    assert_eq!(request.url, "http://h/api/trpc/app.update");
    match &request.body {
        Body::Json(Payload::App(payload)) => assert_eq!(payload.id.as_deref(), Some("app-1")),
        other => panic!("unexpected {:?}", other),
    }
    // The answer to an update carries no id; the app keeps the one it had.
    let reply: Reply<String> =
        Reply::Answer { status: 200, text: String::new(), decoded: Err("no id".into()) };
    let step = cycle.on_upsert(&client, &mut state, reply, later);
    assert!(step.failure.is_none());
    assert_eq!(cycle.app_id.as_deref(), Some("app-1"));
    assert!(matches!(step.action, SyncAction::ReadBoard(_)));
    let step = cycle.on_board(&client, &mut state, ok(board("b1", "home", items)), later);
    assert!(step.synced);
    assert!(step.failure.is_none());
    assert!(matches!(step.action, SyncAction::Finish));
    assert_eq!(state.last_sync, Some(later));
    // The app keeps the time at which it was first seen.
    assert_eq!(state.discovered_apps.get("http://u1").unwrap().added_at, NOW);
}

#[test]
fn a_removed_url_stays_off_its_board_and_goes_onto_the_others() {
    let client = HomarrClient::new("http://h").unwrap();
    let mut state = State::default();
    state.mark_removed_from_board("id-b", "http://u1");

    let (mut cycle, step) = begin(
        &client,
        &mut state,
        vec![board_info("id-b", "board-b"), board_info("id-a", "board-a")],
        vec![],
        vec![entry("One", "http://u1", 10), entry("Two", "http://u2", 20)],
    );
    assert_eq!(href_of(&request_of(step)), "http://u1");

    // u1: board B is passed over, board A is read and saved.
    let step = cycle.on_upsert(&client, &mut state, ok("app-1".to_string()), NOW);
    let request = request_of(step);
    assert!(request.url.contains("board-a"));
    assert_eq!(cycle.board, 1);
    let step = cycle.on_board(&client, &mut state, ok(board("id-a", "board-a", vec![])), NOW);
    match &step.action {
        SyncAction::SaveBoard(r) => match &r.body {
            Body::Json(Payload::SaveBoard { id, .. }) => assert_eq!(id, "id-a"),
            other => panic!("unexpected {:?}", other),
        },
        other => panic!("unexpected {:?}", other),
    }

    // u2 was not removed from anything: both boards are served, B first.
    let step = cycle.on_saved(&client, &mut state, ok(()), NOW);
    assert_eq!(href_of(&request_of(step)), "http://u2");
    let step = cycle.on_upsert(&client, &mut state, ok("app-2".to_string()), NOW);
    assert!(request_of(step).url.contains("board-b"));
    let step = cycle.on_board(&client, &mut state, ok(board("id-b", "board-b", vec![])), NOW);
    assert!(matches!(step.action, SyncAction::SaveBoard(_)));
    let step = cycle.on_saved(&client, &mut state, ok(()), NOW);
    assert!(request_of(step).url.contains("board-a"));

    // The removal is still on file.
    assert!(state.is_removed_from_board("id-b", "http://u1"));
    assert!(!state.is_removed_from_board("id-a", "http://u1"));
}

#[test]
fn a_url_removed_from_every_board_is_only_upserted() {
    let client = HomarrClient::new("http://h").unwrap();
    let mut state = State::default();
    state.mark_removed_from_board("id-a", "http://u1");
    let (mut cycle, _) = begin(
        &client,
        &mut state,
        vec![board_info("id-a", "board-a")],
        vec![],
        vec![entry("One", "http://u1", 10)],
    );
    let step = cycle.on_upsert(&client, &mut state, ok("app-1".to_string()), NOW);
    assert!(matches!(step.action, SyncAction::Finish));
    assert!(!step.synced);
}

#[test]
fn a_removal_during_the_cycle_is_honoured() {
    let client = HomarrClient::new("http://h").unwrap();
    let mut state = State::default();
    let (mut cycle, _) = begin(
        &client,
        &mut state,
        vec![board_info("id-a", "board-a")],
        vec![],
        vec![entry("One", "http://u1", 10)],
    );
    let step = cycle.on_upsert(&client, &mut state, ok("app-1".to_string()), NOW);
    assert!(matches!(step.action, SyncAction::ReadBoard(_)));
    // The user removes the app from the board while the board is read.
    state.mark_removed_from_board("id-a", "http://u1");
    let step = cycle.on_board(&client, &mut state, ok(board("id-a", "board-a", vec![])), NOW);
    assert!(matches!(step.action, SyncAction::Finish));
    assert!(!step.synced);
}

#[test]
fn without_boards_the_cycle_is_skipped() {
    let client = HomarrClient::new("http://h").unwrap();
    let (mut cycle, _) = SyncCycle::start(&client);
    let step = cycle.on_boards(&client, ok(vec![]));
    assert!(matches!(step.action, SyncAction::Skip));
    assert!(step.failure.is_none());
    assert_eq!(cycle.phase, SyncPhase::Done);

    // A failed question counts as no board, and is reported.
    let (mut cycle, _) = SyncCycle::start(&client);
    let step = cycle.on_boards(&client, Reply::Failed("timeout".into()));
    assert!(matches!(step.action, SyncAction::Skip));
    assert!(matches!(step.failure, Some(AdapterError::Http(ref m)) if m == "timeout"));
}

#[test]
fn a_failed_app_list_counts_as_empty() {
    let client = HomarrClient::new("http://h").unwrap();
    let mut state = State::default();
    let (mut cycle, _) = SyncCycle::start(&client);
    cycle.on_boards(&client, ok(vec![board_info("b1", "home")]));
    let step = cycle.on_apps(&client, Reply::Failed("reset".into()));
    assert!(matches!(step.action, SyncAction::LoadEntries));
    assert!(matches!(step.failure, Some(AdapterError::Http(_))));
    assert!(cycle.apps.is_empty());
    // With no list every app is created.
    let step = cycle.on_entries(&client, &mut state, Ok(vec![entry("One", "http://u1", 10)]), NOW);
    assert_eq!(request_of(step).url, "http://h/api/trpc/app.create");
}

#[test]
fn a_registry_that_cannot_be_loaded_counts_as_empty() {
    let client = HomarrClient::new("http://h").unwrap();
    let mut state = State::default();
    let (mut cycle, _) = SyncCycle::start(&client);
    cycle.on_boards(&client, ok(vec![board_info("b1", "home")]));
    cycle.on_apps(&client, ok(vec![]));
    let step =
        cycle.on_entries(&client, &mut state, Err(AdapterError::Io("denied".into())), NOW);
    assert!(matches!(step.action, SyncAction::Finish));
    assert!(matches!(step.failure, Some(AdapterError::Io(_))));
    assert_eq!(state.last_sync, Some(NOW));
}

#[test]
fn a_failed_entry_does_not_end_the_cycle() {
    let client = HomarrClient::new("http://h").unwrap();
    let mut state = State::default();
    let (mut cycle, _) = begin(
        &client,
        &mut state,
        vec![board_info("b1", "home")],
        vec![],
        vec![entry("One", "http://u1", 10), entry("Two", "http://u2", 20)],
    );
    // The dashboard refuses the first app.
    let refused: Reply<String> =
        Reply::Answer { status: 400, text: "bad".into(), decoded: Err("".into()) };
    let step = cycle.on_upsert(&client, &mut state, refused, NOW);
    match &step.failure {
        Some(AdapterError::HomarrApi(m)) => {
            assert_eq!(m, "Failed to create registry app 'One': bad")
        }
        other => panic!("unexpected {:?}", other),
    }
    // The app is on file all the same, and the cycle goes on to the next.
    assert!(state.discovered_apps.contains_key("http://u1"));
    assert_eq!(href_of(&request_of(step)), "http://u2");

    // The board cannot be read: the board fails, the cycle ends in order.
    cycle.on_upsert(&client, &mut state, ok("app-2".to_string()), NOW);
    let missing: Reply<Board> =
        Reply::Answer { status: 404, text: "".into(), decoded: Err("".into()) };
    let step = cycle.on_board(&client, &mut state, missing, NOW);
    assert!(matches!(step.failure, Some(AdapterError::NotFound(_))));
    assert!(!step.synced);
    assert!(matches!(step.action, SyncAction::Finish));
}

#[test]
fn a_failed_save_is_reported_and_not_counted() {
    let client = HomarrClient::new("http://h").unwrap();
    let mut state = State::default();
    let (mut cycle, _) = begin(
        &client,
        &mut state,
        vec![board_info("b1", "home")],
        vec![],
        vec![entry("One", "http://u1", 10)],
    );
    cycle.on_upsert(&client, &mut state, ok("app-1".to_string()), NOW);
    cycle.on_board(&client, &mut state, ok(board("b1", "home", vec![])), NOW);
    let step = cycle.on_saved(&client, &mut state, Reply::Failed("reset".into()), NOW);
    assert!(!step.synced);
    assert!(matches!(step.failure, Some(AdapterError::Http(_))));
    assert!(matches!(step.action, SyncAction::Finish));
}

#[test]
fn reports_out_of_turn_change_nothing() {
    let client = HomarrClient::new("http://h").unwrap();
    let mut state = State::default();
    let (mut cycle, _) = SyncCycle::start(&client);
    let step = cycle.on_apps(&client, ok(vec![]));
    assert!(matches!(step.action, SyncAction::OutOfTurn));
    let step = cycle.on_entries(&client, &mut state, Ok(vec![]), NOW);
    assert!(matches!(step.action, SyncAction::OutOfTurn));
    let step = cycle.on_upsert(&client, &mut state, ok("x".to_string()), NOW);
    assert!(matches!(step.action, SyncAction::OutOfTurn));
    let step = cycle.on_board(&client, &mut state, ok(board("b", "n", vec![])), NOW);
    assert!(matches!(step.action, SyncAction::OutOfTurn));
    let step = cycle.on_saved(&client, &mut state, ok(()), NOW);
    assert!(matches!(step.action, SyncAction::OutOfTurn));
    assert_eq!(cycle.phase, SyncPhase::AwaitBoards);
    assert!(state.last_sync.is_none());
    assert!(state.discovered_apps.is_empty());
}

#[test]
fn hidden_entries_are_left_out() {
    let mut hidden = entry("Hidden", "http://h1", 10);
    hidden.app.visible = false;
    let visible = visible_entries(vec![
        entry("A", "http://a", 10),
        hidden,
        entry("B", "http://b", 20),
    ]);
    let names: Vec<&str> = visible.iter().map(|e| e.app.name.as_str()).collect();
    assert_eq!(names, vec!["A", "B"]);
    assert!(visible_entries(vec![]).is_empty());
}

#[test]
fn the_container_of_an_app_is_put_on_file() {
    let client = HomarrClient::new("http://h").unwrap();
    let mut state = State::default();
    let mut with_container = entry("One", "http://u1", 10);
    with_container.app.app_type.container_name = Some("one-server".to_string());
    let (mut cycle, _) = begin(
        &client,
        &mut state,
        vec![board_info("b1", "home")],
        vec![],
        vec![with_container, entry("Two", "http://u2", 20)],
    );
    cycle.on_upsert(&client, &mut state, Reply::Failed("x".into()), NOW);
    cycle.on_upsert(&client, &mut state, Reply::Failed("x".into()), NOW);
    assert_eq!(state.discovered_apps.get("http://u1").unwrap().container_id, "one-server");
    assert_eq!(state.discovered_apps.get("http://u2").unwrap().container_id, "");
}

#[test]
fn a_cycle_on_a_configured_board() {
    let client = HomarrClient::new("http://h").unwrap();
    let mut state = State::default();
    // The configured board is known by its name only.
    let (mut cycle, action) = SyncCycle::start_with(&client, vec![board_info("", "home")]);
    match action {
        SyncAction::FetchApps(r) => assert_eq!(r.url, "http://h/api/trpc/app.selectable"),
        other => panic!("unexpected {:?}", other),
    }
    cycle.on_apps(&client, ok(vec![]));
    cycle.on_entries(&client, &mut state, Ok(vec![entry("One", "http://u1", 10)]), NOW);
    let step = cycle.on_upsert(&client, &mut state, ok("app-1".to_string()), NOW);
    assert!(request_of(step).url.contains("home"));
    let step = cycle.on_board(&client, &mut state, ok(board("b1", "home", vec![])), NOW);
    assert!(matches!(step.action, SyncAction::SaveBoard(_)));

    // Without a board nothing is done.
    let (cycle, action) = SyncCycle::start_with(&client, vec![]);
    assert!(matches!(action, SyncAction::Skip));
    assert_eq!(cycle.phase, SyncPhase::Done);
}

#[test]
fn a_removal_under_the_id_that_the_board_reports_is_honoured() {
    let client = HomarrClient::new("http://h").unwrap();
    let mut state = State::default();
    state.mark_removed_from_board("b1", "http://u1");
    let (mut cycle, _) = SyncCycle::start_with(&client, vec![board_info("", "home")]);
    cycle.on_apps(&client, ok(vec![]));
    cycle.on_entries(&client, &mut state, Ok(vec![entry("One", "http://u1", 10)]), NOW);
    let step = cycle.on_upsert(&client, &mut state, ok("app-1".to_string()), NOW);
    assert!(matches!(step.action, SyncAction::ReadBoard(_)));
    let step = cycle.on_board(&client, &mut state, ok(board("b1", "home", vec![])), NOW);
    assert!(matches!(step.action, SyncAction::Finish));
    assert!(!step.synced);
    assert!(step.failure.is_none());
}
