use homarr_container_adapter::collections::{StrMap, StrSet};
use homarr_container_adapter::error::AdapterError;
use homarr_container_adapter::persist::StateRecord;
use homarr_container_adapter::state::{default_version, DiscoveredApp, State, Timestamp};

fn stamp(secs: i64) -> Timestamp {
    Timestamp { secs, nanos: 0 }
}

fn now() -> (i64, u32) {
    let t = chrono::Utc::now();
    (t.timestamp(), t.timestamp_subsec_nanos())
}

#[test]
fn test_default_state() {
    let state = State::default();
    assert!(!state.first_boot_completed);
    assert!(state.removed_apps_by_board.is_empty());
    assert!(state.last_sync.is_none());
    assert!(state.discovered_apps.is_empty());
    // The default state has no version; the version is given when the state is written
    assert!(state.version.is_empty());
}

#[test]
fn test_load_nonexistent_returns_default() {
    let result = State::load(None);
    assert!(result.is_ok());
    let state = result.unwrap();
    assert!(!state.first_boot_completed);
}

#[test]
fn test_save_and_load_roundtrip() {
    let mut state = State { first_boot_completed: true, ..Default::default() };
    state.mark_removed_from_board("board-1", "http://app1.local");
    state.mark_removed_from_board("board-1", "http://app2.local");
    state.mark_removed_from_board("board-2", "http://app1.local");
    state.update_sync_time();

    // Save
    let contents = serde_json::to_string_pretty(&state.save().to_json()).unwrap();

    // Load back
    let loaded = State::load(Some(StateRecord::parse(&contents))).unwrap();
    assert!(loaded.first_boot_completed);
    assert!(loaded.is_removed_from_board("board-1", "http://app1.local"));
    assert!(loaded.is_removed_from_board("board-1", "http://app2.local"));
    assert!(loaded.is_removed_from_board("board-2", "http://app1.local"));
    assert!(!loaded.is_removed_from_board("board-2", "http://app2.local"));
    assert!(!loaded.is_removed_from_board("board-3", "http://app1.local"));
    assert!(loaded.last_sync.is_some());
}

#[test]
fn test_per_board_removal_tracking() {
    let mut state = State::default();
    let board_a = "board-a";
    let board_b = "board-b";
    let app_url = "http://test-app.local";

    // Initially not removed from any board
    assert!(!state.is_removed_from_board(board_a, app_url));
    assert!(!state.is_removed_from_board(board_b, app_url));

    // Mark removed from board A
    state.mark_removed_from_board(board_a, app_url);

    // Should be removed from A but not B
    assert!(state.is_removed_from_board(board_a, app_url));
    assert!(!state.is_removed_from_board(board_b, app_url));

    // Mark removed from board B too
    state.mark_removed_from_board(board_b, app_url);
    assert!(state.is_removed_from_board(board_b, app_url));

    // Clear from board A (user re-added)
    state.clear_removed_from_board(board_a, app_url);
    assert!(!state.is_removed_from_board(board_a, app_url));
    assert!(state.is_removed_from_board(board_b, app_url));
}

#[test]
fn test_update_sync_time() {
    let mut state = State::default();
    assert!(state.last_sync.is_none());

    let before = now();
    state.update_sync_time();
    let after = now();

    let sync_time = state.last_sync.unwrap();
    let sync_time = (sync_time.secs, sync_time.nanos);
    assert!(sync_time >= before && sync_time <= after);
}

// Tests for URL-based deduplication

#[test]
fn test_discovered_apps_keyed_by_url() {
    let mut state = State::default();
    let url = "http://localhost:3000".to_string();

    state.discovered_apps.insert(
        url.clone(),
        DiscoveredApp {
            name: "Signal K".to_string(),
            container_id: "abc123".to_string(),
            added_at: stamp(1),
        },
    );

    // Should find by URL
    assert!(state.discovered_apps.contains_key(&url));
    // Should NOT find by container_id (that's not the key)
    assert!(!state.discovered_apps.contains_key("abc123"));
}

#[test]
fn test_same_url_different_container_id_no_duplicate() {
    let mut state = State::default();
    let url = "http://localhost:3000".to_string();

    // First container with this URL
    state.discovered_apps.insert(
        url.clone(),
        DiscoveredApp {
            name: "Signal K".to_string(),
            container_id: "abc123".to_string(),
            added_at: stamp(1),
        },
    );

    // Same URL, different container (after restart)
    state.discovered_apps.insert(
        url.clone(),
        DiscoveredApp {
            name: "Signal K".to_string(),
            container_id: "def456".to_string(),
            added_at: stamp(2),
        },
    );

    // Should have exactly one entry
    assert_eq!(state.discovered_apps.len(), 1);
    // Should have the new container_id
    assert_eq!(state.discovered_apps.get(&url).unwrap().container_id, "def456");
}

#[test]
fn test_removed_apps_tracked_by_url_per_board() {
    let mut state = State::default();
    let board_id = "test-board";
    let url = "http://localhost:3000";

    assert!(!state.is_removed_from_board(board_id, url));
    state.mark_removed_from_board(board_id, url);
    assert!(state.is_removed_from_board(board_id, url));
}

#[test]
fn test_clear_removed_nonexistent_board() {
    let mut state = State::default();
    // Should not panic when clearing from a board that doesn't exist
    state.clear_removed_from_board("nonexistent-board", "http://app.local");
    assert!(!state.is_removed_from_board("nonexistent-board", "http://app.local"));
}

#[test]
fn clearing_keeps_the_board_with_an_empty_set() {
    let mut state = State::default();
    state.mark_removed_from_board("b", "http://a");
    state.clear_removed_from_board("b", "http://a");
    assert!(!state.removed_apps_by_board.is_empty());
    assert!(state.removed_apps_by_board.get("b").unwrap().is_empty());
    // A board that had no set gets none.
    state.clear_removed_from_board("c", "http://a");
    assert!(!state.removed_apps_by_board.contains_key("c"));
}

#[test]
fn marking_twice_is_marking_once() {
    let mut state = State::default();
    state.mark_removed_from_board("b", "http://a");
    state.mark_removed_from_board("b", "http://a");
    assert_eq!(state.removed_apps_by_board.len(), 1);
    assert_eq!(state.removed_apps_by_board.get("b").unwrap().len(), 1);
}

#[test]
fn record_discovered_keeps_the_first_time() {
    let mut state = State::default();
    state.record_discovered("http://a", "App", "abc123", stamp(100));
    {
        let app = state.discovered_apps.get("http://a").unwrap();
        assert_eq!(app.name, "App");
        assert_eq!(app.container_id, "abc123");
        assert_eq!(app.added_at, stamp(100));
    }
    // The container restarts: new identifier, later time.
    state.record_discovered("http://a", "App renamed", "def456", stamp(200));
    assert_eq!(state.discovered_apps.len(), 1);
    let app = state.discovered_apps.get("http://a").unwrap();
    assert_eq!(app.name, "App renamed");
    assert_eq!(app.container_id, "def456");
    assert_eq!(app.added_at, stamp(100));
}

#[test]
fn set_sync_time_sets_the_time() {
    let mut state = State::default();
    state.set_sync_time(Timestamp { secs: 1_700_000_000, nanos: 5 });
    assert_eq!(state.last_sync, Some(Timestamp { secs: 1_700_000_000, nanos: 5 }));
    assert_eq!(default_version(), "1.0");
}

#[test]
fn saved_state_is_restored() {
    let mut state = State::default();
    state.version = default_version();
    state.first_boot_completed = true;
    state.authelia_sync_completed = true;
    state.api_key = Some("id.token".to_string());
    state.mark_removed_from_board("board-1", "http://app1.local");
    state.mark_removed_from_board("board-2", "http://app2.local");
    state.mark_removed_from_board("board-2", "http://app3.local");
    state.mark_removed_from_board("board-3", "http://gone.local");
    state.clear_removed_from_board("board-3", "http://gone.local");
    state.record_discovered("http://app1.local", "One", "c1", stamp(10));
    state.record_discovered("http://app2.local", "Two", "", stamp(20));
    state.set_sync_time(stamp(30));

    let record = state.save();
    assert_eq!(record.version, "1.0");
    assert_eq!(record.api_key.as_deref(), Some("id.token"));
    assert_eq!(record.removed_apps_by_board.len(), 3);
    assert_eq!(record.discovered_apps.len(), 2);

    let restored = State::restore(record);
    assert_eq!(restored.version, "1.0");
    assert!(restored.first_boot_completed);
    assert!(restored.authelia_sync_completed);
    assert_eq!(restored.api_key.as_deref(), Some("id.token"));
    assert_eq!(restored.last_sync, Some(stamp(30)));
    assert_eq!(restored.removed_apps_by_board.len(), 3);
    assert!(restored.is_removed_from_board("board-1", "http://app1.local"));
    assert!(restored.is_removed_from_board("board-2", "http://app2.local"));
    assert!(restored.is_removed_from_board("board-2", "http://app3.local"));
    assert!(!restored.is_removed_from_board("board-1", "http://app2.local"));
    assert!(restored.removed_apps_by_board.get("board-3").unwrap().is_empty());
    assert_eq!(restored.discovered_apps.len(), 2);
    let two = restored.discovered_apps.get("http://app2.local").unwrap();
    assert_eq!((two.name.as_str(), two.container_id.as_str(), two.added_at), ("Two", "", stamp(20)));
}

#[test]
fn restoring_a_record_with_repeated_keys_keeps_the_last() {
    let record = StateRecord {
        version: "1.0".to_string(),
        first_boot_completed: false,
        authelia_sync_completed: false,
        api_key: None,
        removed_apps_by_board: vec![
            ("b".to_string(), vec!["http://x".to_string()]),
            ("b".to_string(), vec!["http://y".to_string(), "http://y".to_string()]),
        ],
        last_sync: None,
        discovered_apps: vec![
            (
                "http://a".to_string(),
                DiscoveredApp { name: "old".into(), container_id: "1".into(), added_at: stamp(1) },
            ),
            (
                "http://a".to_string(),
                DiscoveredApp { name: "new".into(), container_id: "2".into(), added_at: stamp(2) },
            ),
        ],
    };
    let state = State::restore(record);
    assert!(!state.is_removed_from_board("b", "http://x"));
    assert!(state.is_removed_from_board("b", "http://y"));
    assert_eq!(state.removed_apps_by_board.get("b").unwrap().len(), 1);
    assert_eq!(state.discovered_apps.len(), 1);
    assert_eq!(state.discovered_apps.get("http://a").unwrap().name, "new");
}

#[test]
fn a_state_that_cannot_be_read_gives_way_to_a_fresh_one() {
    let loaded = State::load(Some(Err("expected value at line 1".to_string())));
    match &loaded {
        Err(AdapterError::State(m)) => {
            assert_eq!(m, "Failed to parse state: expected value at line 1")
        }
        other => panic!("unexpected {:?}", other),
    }
    let (state, failure) = State::recover(loaded);
    assert!(failure.is_some());
    assert!(!state.first_boot_completed);
    assert!(state.api_key.is_none());
    assert!(state.discovered_apps.is_empty());

    let mut kept = State::default();
    kept.first_boot_completed = true;
    let (state, failure) = State::recover(Ok(kept));
    assert!(failure.is_none());
    assert!(state.first_boot_completed);
}

#[test]
fn string_set_behaves_as_a_set() {
    let mut s = StrSet::new();
    assert!(s.is_empty());
    assert!(s.insert("a".to_string()));
    assert!(!s.insert("a".to_string()));
    assert!(s.insert("b".to_string()));
    assert_eq!(s.len(), 2);
    assert!(s.contains("a") && s.contains("b") && !s.contains("c"));
    assert!(!s.remove("c"));
    assert!(s.remove("a"));
    assert!(!s.contains("a"));
    assert_eq!(s.items(), &vec!["b".to_string()]);
    let s = StrSet::from_items(vec!["x".into(), "y".into(), "x".into()]);
    assert_eq!(s.len(), 2);
    assert!(s.contains("x") && s.contains("y"));
}

#[test]
fn string_map_behaves_as_a_map() {
    let mut m: StrMap<u32> = StrMap::new();
    assert!(m.is_empty());
    assert_eq!(m.insert("a".to_string(), 1), None);
    assert_eq!(m.insert("b".to_string(), 2), None);
    assert_eq!(m.insert("a".to_string(), 3), Some(1));
    assert_eq!(m.len(), 2);
    assert_eq!(m.get("a"), Some(&3));
    assert_eq!(m.get("c"), None);
    assert!(m.contains_key("b"));
    // Replacing a value keeps the key's place.
    assert_eq!(m.entries(), &vec![("a".to_string(), 3), ("b".to_string(), 2)]);
    assert_eq!(m.remove("a"), Some(3));
    assert_eq!(m.remove("a"), None);
    assert_eq!(m.len(), 1);
    let m = StrMap::from_entries(vec![("k".to_string(), 1), ("l".to_string(), 2), ("k".to_string(), 9)]);
    assert_eq!(m.len(), 2);
    assert_eq!(m.get("k"), Some(&9));
}

#[test]
fn the_state_file_gives_the_state_back() {
    let mut state = State::default();
    state.version = default_version();
    state.first_boot_completed = true;
    state.api_key = Some("id.token".to_string());
    state.mark_removed_from_board("board-1", "http://app1.local");
    state.mark_removed_from_board("board-1", "http://app2.local");
    state.mark_removed_from_board("board-2", "http://app1.local");
    state.mark_removed_from_board("board-3", "http://gone.local");
    state.clear_removed_from_board("board-3", "http://gone.local");
    state.record_discovered("http://app1.local", "One", "c1", Timestamp { secs: 1_700_000_000, nanos: 0 });
    state.record_discovered(
        "http://app2.local",
        "Two",
        "",
        Timestamp { secs: 1_700_000_001, nanos: 123_456_789 },
    );
    state.set_sync_time(Timestamp { secs: 1_700_000_300, nanos: 500_000_000 });

    let document = state.save().to_json();
    let text = serde_json::to_string_pretty(&document).unwrap();
    assert!(text.contains("\"2023-11-14T22:13:20Z\""));
    assert!(text.contains("\"2023-11-14T22:13:21.123456789Z\""));
    assert!(text.contains("\"2023-11-14T22:18:20.500Z\""));

    let restored = State::load(Some(StateRecord::parse(&text))).unwrap();
    assert_eq!(restored.version, "1.0");
    assert!(restored.first_boot_completed);
    assert!(!restored.authelia_sync_completed);
    assert_eq!(restored.api_key.as_deref(), Some("id.token"));
    assert_eq!(restored.last_sync, state.last_sync);
    assert_eq!(restored.removed_apps_by_board.len(), 3);
    assert!(restored.is_removed_from_board("board-1", "http://app1.local"));
    assert!(restored.is_removed_from_board("board-1", "http://app2.local"));
    assert!(restored.is_removed_from_board("board-2", "http://app1.local"));
    assert!(!restored.is_removed_from_board("board-2", "http://app2.local"));
    assert!(restored.removed_apps_by_board.get("board-3").unwrap().is_empty());
    assert_eq!(restored.discovered_apps.len(), 2);
    let two = restored.discovered_apps.get("http://app2.local").unwrap();
    assert_eq!(two.name, "Two");
    assert_eq!(two.container_id, "");
    assert_eq!(two.added_at, Timestamp { secs: 1_700_000_001, nanos: 123_456_789 });
}

#[test]
fn a_state_file_of_an_earlier_run_is_read() {
    let text = r#"{
        "version": "1.0",
        "first_boot_completed": true,
        "authelia_sync_completed": false,
        "api_key": null,
        "removed_apps_by_board": {"board-1": ["http://a", "http://b"]},
        "last_sync": "2024-05-01T12:00:00+02:00",
        "discovered_apps": {
            "http://a": {"name": "A", "container_id": "abc", "added_at": "2024-05-01T10:00:00Z"}
        }
    }"#;
    let state = State::load(Some(StateRecord::parse(text))).unwrap();
    assert!(state.first_boot_completed);
    assert!(state.api_key.is_none());
    assert!(state.is_removed_from_board("board-1", "http://b"));
    assert_eq!(state.last_sync, Some(Timestamp { secs: 1_714_557_600, nanos: 0 }));
    assert_eq!(
        state.discovered_apps.get("http://a").unwrap().added_at,
        Timestamp { secs: 1_714_557_600, nanos: 0 }
    );

    // What is missing is as in a state that was never written.
    let state = State::load(Some(StateRecord::parse("{}"))).unwrap();
    assert_eq!(state.version, "1.0");
    assert!(!state.first_boot_completed);
    assert!(state.removed_apps_by_board.is_empty());
    assert!(state.discovered_apps.is_empty());
    assert!(state.last_sync.is_none());
}

#[test]
fn a_document_that_is_no_state_is_refused() {
    for text in [
        "[]",
        "null",
        r#"{"removed_apps_by_board": []}"#,
        r#"{"removed_apps_by_board": {"b": "http://a"}}"#,
        r#"{"removed_apps_by_board": {"b": ["http://a", 7]}}"#,
        r#"{"discovered_apps": {"http://a": {"name": "A", "container_id": "c"}}}"#,
        r#"{"discovered_apps": {"http://a": {"name": "A", "container_id": "c", "added_at": "soon"}}}"#,
        r#"{"discovered_apps": "none"}"#,
    ] {
        match StateRecord::parse(text) {
            Err(why) => assert_eq!(why, "the document is no state", "for {}", text),
            Ok(_) => panic!("{} was read as a state", text),
        }
    }
    // A text that is no JSON at all.
    let loaded = State::load(Some(StateRecord::parse("{")));
    assert!(matches!(loaded, Err(AdapterError::State(_))));
}

#[test]
fn a_time_beyond_the_calendar_is_not_written() {
    let mut state = State::default();
    state.set_sync_time(Timestamp { secs: i64::MAX, nanos: 0 });
    let document = state.save().to_json();
    assert!(document["last_sync"].is_null());
    state.set_sync_time(Timestamp { secs: 0, nanos: 0 });
    assert_eq!(state.save().to_json()["last_sync"], "1970-01-01T00:00:00Z");
    assert!(Timestamp::now().secs > 1_600_000_000);
}
