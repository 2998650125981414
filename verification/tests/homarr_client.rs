use homarr_container_adapter::board::{board_has_app, Board, BoardItem, ItemLayout, Layout, Section};
use homarr_container_adapter::branding::{
    AnalyticsSettings, Board as BoardBranding, BrandingConfig, CockpitTile, CrawlingSettings,
    Credentials, Identity, Settings, Theme,
};
use homarr_container_adapter::error::{AdapterError, ErrorKind};
use homarr_container_adapter::homarr::{
    app_payload, derive_ping_url, find_app_in_list, registry_item_id, BoardPlan, HomarrClient,
    OnboardingStep, SelectableApp, Upsert,
};
use homarr_container_adapter::http::{Body, Method, Payload, Reply};
use homarr_container_adapter::items::{items_from_json, items_to_json};
use homarr_container_adapter::registry::{AppDefinition, AppType, LayoutConfig};
use homarr_container_adapter::wire;
use serde_json::Value;

fn app_item(id: &str, app_id: Option<&str>) -> BoardItem {
    BoardItem {
        id: id.to_string(),
        kind: "app".to_string(),
        app_id: app_id.map(|s| s.to_string()),
        layouts: None,
        source: None,
    }
}

fn object(members: Vec<(&str, Value)>) -> Value {
    let mut map = serde_json::Map::new();
    for (key, value) in members {
        map.insert(key.to_string(), value);
    }
    Value::Object(map)
}

/// `{"id": id, "kind": "app", "options": {"appId": app_id}}`
fn json_app_item(id: &str, app_id: &str) -> Value {
    object(vec![
        ("id", Value::from(id)),
        ("kind", Value::from("app")),
        ("options", object(vec![("appId", Value::from(app_id))])),
    ])
}

fn definition(name: &str, url: &str) -> AppDefinition {
    AppDefinition {
        name: name.to_string(),
        url: url.to_string(),
        description: None,
        icon_url: None,
        category: None,
        app_type: AppType::default(),
        ping_url: None,
        visible: true,
        layout: LayoutConfig::default(),
    }
}

fn branding() -> BrandingConfig {
    BrandingConfig {
        identity: Identity {
            product_name: "HaLOS".to_string(),
            logo_path: "/logo.svg".to_string(),
            favicon_path: None,
            page_title: Some("HaLOS".to_string()),
            meta_title: None,
            logo_image_url: Some("/icons/logo.svg".to_string()),
            favicon_image_url: None,
        },
        theme: Theme {
            default_color_scheme: "dark".to_string(),
            primary_color: "#112233".to_string(),
            secondary_color: "#445566".to_string(),
            item_radius: "lg".to_string(),
            opacity: 100,
            background_image_url: None,
            custom_css: None,
        },
        credentials: Credentials {
            admin_username: "admin".to_string(),
            admin_password: "secret".to_string(),
        },
        board: BoardBranding {
            name: "home".to_string(),
            display_name: "Home".to_string(),
            column_count: 12,
            is_public: true,
            cockpit: CockpitTile {
                enabled: false,
                name: String::new(),
                description: String::new(),
                href: String::new(),
                icon_url: String::new(),
                width: 1,
                height: 1,
                x_offset: 0,
                y_offset: 0,
            },
        },
        settings: Settings {
            analytics: AnalyticsSettings {
                enable_general: false,
                enable_widget_data: false,
                enable_integration_data: true,
                enable_user_data: false,
            },
            crawling: CrawlingSettings {
                no_index: true,
                no_follow: true,
                no_translate: false,
                no_sitelinks_search_box: true,
            },
        },
    }
}

fn answer<T>(status: u16, text: &str, decoded: Result<T, String>) -> Reply<T> {
    Reply::Answer { status, text: text.to_string(), decoded }
}

fn empty_board(id: &str, name: &str) -> Board {
    Board {
        id: id.to_string(),
        name: name.to_string(),
        sections: vec![Section { id: "sec-1".to_string(), kind: "empty".to_string(), y_offset: 0, x_offset: 0 }],
        layouts: vec![Layout { id: "lay-1".to_string(), name: "Base".to_string(), column_count: 12, breakpoint: 0 }],
        items: vec![],
    }
}

// HomarrClient creation tests

#[test]
fn test_client_new_valid_url() {
    let client = HomarrClient::new("http://localhost:7575");
    assert!(client.is_ok());
}

#[test]
fn test_client_new_strips_trailing_slash() {
    let client = HomarrClient::new("http://localhost:7575/").unwrap();
    assert_eq!(client.base_url, "http://localhost:7575");
}

#[test]
fn test_client_new_preserves_path() {
    let client = HomarrClient::new("http://localhost:7575/homarr").unwrap();
    assert_eq!(client.base_url, "http://localhost:7575/homarr");
}

#[test]
fn client_new_strips_every_trailing_slash() {
    let client = HomarrClient::new("http://localhost:7575///").unwrap();
    assert_eq!(client.base_url, "http://localhost:7575");
    assert!(client.api_key.is_none());
    let client = HomarrClient::new("///").unwrap();
    assert_eq!(client.base_url, "");
}

// Tests for board item deduplication

#[test]
fn test_board_has_app_finds_existing() {
    let items = items_from_json(vec![
        json_app_item("discovered-abc123", "app-xyz-123"),
        json_app_item("discovered-def456", "app-other-456"),
    ]);

    assert!(board_has_app(&items, "app-xyz-123"));
    assert!(board_has_app(&items, "app-other-456"));
    assert!(!board_has_app(&items, "app-nonexistent"));
}

#[test]
fn test_board_has_app_handles_empty_board() {
    let items: Vec<Value> = vec![];
    assert!(!board_has_app(&items_from_json(items), "any-app-id"));
}

#[test]
fn test_board_has_app_handles_malformed_items() {
    let items = items_from_json(vec![
        object(vec![("id", Value::from("item-without-options"))]),
        object(vec![("id", Value::from("item-with-empty-options")), ("options", object(vec![]))]),
        object(vec![
            ("id", Value::from("item-with-null-appid")),
            ("options", object(vec![("appId", Value::Null)])),
        ]),
    ]);

    // Should not crash and should return false for all
    assert!(!board_has_app(&items, "any-app-id"));
}

// Tests for derive_ping_url (auto-derive host.docker.internal URL for health checks)

#[test]
fn test_derive_ping_url_replaces_hostname() {
    let result = derive_ping_url("http://halos.local:3000");
    assert_eq!(result, Some("http://host.docker.internal:3000/".to_string()));
}

#[test]
fn test_derive_ping_url_preserves_path() {
    let result = derive_ping_url("http://halos.local:8086/api/v2");
    assert_eq!(result, Some("http://host.docker.internal:8086/api/v2".to_string()));
}

#[test]
fn test_derive_ping_url_preserves_https() {
    let result = derive_ping_url("https://halos.local:443/app");
    assert_eq!(result, Some("https://host.docker.internal/app".to_string()));
}

#[test]
fn test_derive_ping_url_handles_no_port() {
    let result = derive_ping_url("http://halos.local/dashboard");
    assert_eq!(result, Some("http://host.docker.internal/dashboard".to_string()));
}

#[test]
fn test_derive_ping_url_invalid_url_returns_none() {
    let result = derive_ping_url("not-a-valid-url");
    assert_eq!(result, None);
}

#[test]
fn derive_ping_url_refuses_urls_without_a_host() {
    assert_eq!(derive_ping_url("mailto:someone@example.com"), None);
    assert_eq!(derive_ping_url(""), None);
}

#[test]
fn board_request_percent_encodes_the_query() {
    let client = HomarrClient::new("http://h").unwrap();
    let request = client.board_by_name_request("home");
    assert_eq!(request.method, Method::Get);
    assert_eq!(
        request.url,
        "http://h/api/trpc/board.getBoardByName?input=%7B%22json%22%3A%7B%22name%22%3A%22home%22%7D%7D"
    );
    assert!(matches!(request.body, Body::Empty));
    assert!(request.api_key.is_none());
}

#[test]
fn board_request_keeps_unreserved_and_encodes_utf8() {
    let client = HomarrClient::new("http://h").unwrap();
    let request = client.board_by_name_request("a-b_c.d~e é");
    assert_eq!(
        request.url,
        "http://h/api/trpc/board.getBoardByName?input=%7B%22json%22%3A%7B%22name%22%3A%22a-b_c.d~e%20%C3%A9%22%7D%7D"
    );
}

#[test]
fn requests_carry_the_api_key() {
    let mut client = HomarrClient::new("http://h/").unwrap();
    client.set_api_key("id.token".to_string());
    let request = client.all_apps_request();
    assert_eq!(request.url, "http://h/api/trpc/app.selectable");
    assert_eq!(request.api_key.as_deref(), Some("id.token"));
    let request = client.rotate_api_key_request("boot.strap");
    assert_eq!(request.method, Method::Post);
    assert_eq!(request.url, "http://h/api/trpc/apiKeys.create");
    assert_eq!(request.api_key.as_deref(), Some("boot.strap"));
}

#[test]
fn find_app_in_list_takes_the_first_match() {
    let apps = vec![
        SelectableApp { id: "a".into(), name: "A".into(), icon_url: "".into(), href: None },
        SelectableApp { id: "b".into(), name: "B".into(), icon_url: "".into(), href: Some("http://x".into()) },
        SelectableApp { id: "c".into(), name: "C".into(), icon_url: "".into(), href: Some("http://x".into()) },
    ];
    assert_eq!(find_app_in_list(&apps, "http://x").map(|a| a.id.as_str()), Some("b"));
    assert!(find_app_in_list(&apps, "http://y").is_none());
    assert!(find_app_in_list(&vec![], "http://x").is_none());
}

#[test]
fn app_payload_for_a_plain_app() {
    let app = definition("Signal K", "http://halos.local:3000");
    let payload = app_payload(&app, None);
    assert!(payload.id.is_none());
    assert_eq!(payload.name, "Signal K");
    assert_eq!(payload.description, "");
    assert_eq!(payload.icon_url, "/icons/docker.svg");
    assert_eq!(payload.href, "http://halos.local:3000");
    assert_eq!(payload.ping_url.as_deref(), Some("http://host.docker.internal:3000/"));
}

#[test]
fn app_payload_for_an_external_app_has_no_ping_url() {
    let mut app = definition("Docs", "https://docs.example.com");
    app.app_type.external = true;
    app.ping_url = Some("http://ignored".to_string());
    app.description = Some("Manuals".to_string());
    app.icon_url = Some("/usr/share/pixmaps/docs.png".to_string());
    let payload = app_payload(&app, Some("app-9"));
    assert_eq!(payload.id.as_deref(), Some("app-9"));
    assert_eq!(payload.description, "Manuals");
    assert_eq!(payload.icon_url, "/icons/docs.png");
    assert!(payload.ping_url.is_none());
}

#[test]
fn app_payload_prefers_the_explicit_ping_url() {
    let mut app = definition("Grafana", "http://halos.local:3001");
    app.ping_url = Some("http://grafana:3000/health".to_string());
    let payload = app_payload(&app, None);
    assert_eq!(payload.ping_url.as_deref(), Some("http://grafana:3000/health"));
}

#[test]
fn registry_item_id_uses_the_container_or_the_hash() {
    assert_eq!(registry_item_id(Some("signalk-server"), 7), "registry-signalk-server");
    assert_eq!(registry_item_id(None, 0), "registry-0");
    assert_eq!(registry_item_id(None, 255), "registry-ff");
    assert_eq!(registry_item_id(None, 0xdead_beef_0000_0001), "registry-deadbeef00000001");
    assert_eq!(registry_item_id(None, u64::MAX), "registry-ffffffffffffffff");
}

#[test]
fn add_registry_app_creates_when_the_url_is_new() {
    let client = HomarrClient::new("http://h").unwrap();
    let app = definition("Signal K", "http://halos.local:3000");
    let apps = vec![SelectableApp {
        id: "other".into(),
        name: "Other".into(),
        icon_url: "".into(),
        href: Some("http://elsewhere".into()),
    }];
    match client.add_registry_app(&app, &apps) {
        Upsert::Create { request } => {
            assert_eq!(request.method, Method::Post);
            assert_eq!(request.url, "http://h/api/trpc/app.create");
            match request.body {
                Body::Json(Payload::App(payload)) => {
                    assert!(payload.id.is_none());
                    assert_eq!(payload.href, "http://halos.local:3000");
                }
                other => panic!("unexpected body {:?}", other),
            }
        }
        other => panic!("unexpected plan {:?}", other),
    }
}

#[test]
fn add_registry_app_updates_in_place_when_the_url_exists() {
    let client = HomarrClient::new("http://h").unwrap();
    let app = definition("Signal K", "http://halos.local:3000");
    let apps = vec![SelectableApp {
        id: "app-1".into(),
        name: "Old name".into(),
        icon_url: "".into(),
        href: Some("http://halos.local:3000".into()),
    }];
    match client.add_registry_app(&app, &apps) {
        Upsert::Update { id, request } => {
            assert_eq!(id, "app-1");
            assert_eq!(request.url, "http://h/api/trpc/app.update");
            match request.body {
                Body::Json(Payload::App(payload)) => {
                    assert_eq!(payload.id.as_deref(), Some("app-1"));
                    assert_eq!(payload.name, "Signal K");
                }
                other => panic!("unexpected body {:?}", other),
            }
        }
        other => panic!("unexpected plan {:?}", other),
    }
}

#[test]
fn add_registry_app_to_board_appends_one_item() {
    let client = HomarrClient::new("http://h").unwrap();
    let mut app = definition("Signal K", "http://halos.local:3000");
    app.app_type.container_name = Some("signalk-server".to_string());
    app.layout.width = 2;
    app.layout.height = 3;
    let mut board = empty_board("board-1", "home");
    board.items.push(BoardItem {
        id: "clock".into(),
        kind: "clock".into(),
        app_id: None,
        layouts: Some(vec![ItemLayout {
            layout_id: "lay-1".into(),
            section_id: "sec-1".into(),
            width: Some(2),
            height: Some(1),
            x_offset: Some(0),
            y_offset: Some(0),
        }]),
        source: None,
    });
    match client.add_registry_app_to_board("app-1", &app, board).unwrap() {
        BoardPlan::Append { request } => {
            assert_eq!(request.url, "http://h/api/trpc/board.saveBoard");
            match request.body {
                Body::Json(Payload::SaveBoard { id, sections, items }) => {
                    assert_eq!(id, "board-1");
                    assert_eq!(sections.len(), 1);
                    assert_eq!(items.len(), 2);
                    assert_eq!(items[0].id, "clock");
                    let item = &items[1];
                    assert_eq!(item.id, "registry-signalk-server");
                    assert_eq!(item.kind, "app");
                    assert_eq!(item.app_id.as_deref(), Some("app-1"));
                    let layouts = item.layouts.as_ref().unwrap();
                    assert_eq!(layouts.len(), 1);
                    assert_eq!(layouts[0].layout_id, "lay-1");
                    assert_eq!(layouts[0].section_id, "sec-1");
                    assert_eq!(layouts[0].width, Some(2));
                    assert_eq!(layouts[0].height, Some(3));
                    assert_eq!(layouts[0].x_offset, Some(2));
                    assert_eq!(layouts[0].y_offset, Some(0));
                }
                other => panic!("unexpected body {:?}", other),
            }
        }
        other => panic!("unexpected plan {:?}", other),
    }
}

#[test]
fn add_registry_app_to_board_uses_the_explicit_position() {
    let client = HomarrClient::new("http://h").unwrap();
    let mut app = definition("Docs", "https://docs.example.com");
    app.layout.x_offset = Some(7);
    app.layout.y_offset = Some(4);
    let mut board = empty_board("board-1", "home");
    board.sections.clear();
    board.layouts.clear();
    match client.add_registry_app_to_board("app-2", &app, board).unwrap() {
        BoardPlan::Append { request } => match request.body {
            Body::Json(Payload::SaveBoard { items, .. }) => {
                let item = &items[0];
                assert!(item.id.starts_with("registry-"));
                assert!(item.id.len() > "registry-".len());
                assert!(item.id["registry-".len()..].chars().all(|c| c.is_ascii_hexdigit()));
                let layouts = item.layouts.as_ref().unwrap();
                assert_eq!(layouts[0].layout_id, "");
                assert_eq!(layouts[0].section_id, "");
                assert_eq!((layouts[0].x_offset, layouts[0].y_offset), (Some(7), Some(4)));
            }
            other => panic!("unexpected body {:?}", other),
        },
        other => panic!("unexpected plan {:?}", other),
    }
}

#[test]
fn add_registry_app_to_board_with_one_coordinate_places_automatically() {
    let client = HomarrClient::new("http://h").unwrap();
    let mut app = definition("Docs", "https://docs.example.com");
    app.layout.x_offset = Some(7);
    let board = empty_board("board-1", "home");
    match client.add_registry_app_to_board("app-2", &app, board).unwrap() {
        BoardPlan::Append { request } => match request.body {
            Body::Json(Payload::SaveBoard { items, .. }) => {
                let layouts = items[0].layouts.as_ref().unwrap();
                assert_eq!((layouts[0].x_offset, layouts[0].y_offset), (Some(0), Some(0)));
            }
            other => panic!("unexpected body {:?}", other),
        },
        other => panic!("unexpected plan {:?}", other),
    }
}

#[test]
fn add_registry_app_to_board_leaves_a_board_that_shows_the_app() {
    let client = HomarrClient::new("http://h").unwrap();
    let app = definition("Signal K", "http://halos.local:3000");
    let mut board = empty_board("board-1", "home");
    board.items.push(app_item("registry-x", Some("app-1")));
    let plan = client.add_registry_app_to_board("app-1", &app, board).unwrap();
    assert!(matches!(plan, BoardPlan::AlreadyPresent));
}

#[test]
fn add_registry_app_to_board_refuses_positions_out_of_range() {
    let client = HomarrClient::new("http://h").unwrap();
    let app = definition("Signal K", "http://halos.local:3000");
    let mut board = empty_board("board-1", "home");
    board.items.push(BoardItem {
        id: "far".into(),
        kind: "app".into(),
        app_id: None,
        layouts: Some(vec![ItemLayout {
            layout_id: "".into(),
            section_id: "".into(),
            width: Some(1),
            height: Some(1),
            x_offset: Some(0),
            y_offset: Some(i32::MAX),
        }]),
        source: None,
    });
    let outcome = client.add_registry_app_to_board("app-1", &app, board);
    assert!(matches!(outcome, Err(AdapterError::HomarrApi(_))));
}

#[test]
fn answers_are_read_as_the_operation_says() {
    let client = HomarrClient::new("http://h").unwrap();
    let app = definition("Signal K", "http://halos.local:3000");

    // Transport failure
    let r = client.get_all_apps(Reply::Failed("connection refused".into()));
    assert!(matches!(r, Err(AdapterError::Http(ref m)) if m == "connection refused"));
    assert_eq!(r.unwrap_err().kind(), ErrorKind::RemoteUnavailable);

    // Refusal with status and text
    let r = client.get_all_apps(answer(503, "down", Err("no body".into())));
    match r {
        Err(AdapterError::HomarrApi(m)) => assert_eq!(m, "Failed to fetch apps (503): down"),
        other => panic!("unexpected {:?}", other),
    }

    // Malformed answer
    let r = client.get_all_apps(answer(200, "{}", Err("missing field".into())));
    assert!(matches!(r, Err(AdapterError::Json(ref m)) if m == "missing field"));

    // Success
    let r = client.get_all_apps(answer(200, "[]", Ok(vec![])));
    assert_eq!(r.unwrap().len(), 0);

    // Create and update
    let r = client.create_registry_app(&app, answer(200, "", Ok("app-7".to_string())));
    assert_eq!(r.unwrap(), "app-7");
    let r = client.create_registry_app(&app, answer(400, "bad", Ok("app-7".to_string())));
    match r {
        Err(AdapterError::HomarrApi(m)) => {
            assert_eq!(m, "Failed to create registry app 'Signal K': bad")
        }
        other => panic!("unexpected {:?}", other),
    }
    let r = client.update_registry_app("app-1".to_string(), &app, answer(204, "", Ok(())));
    assert_eq!(r.unwrap(), "app-1");
    let r = client.update_registry_app("app-1".to_string(), &app, answer(500, "oops", Ok(())));
    match r {
        Err(AdapterError::HomarrApi(m)) => {
            assert_eq!(m, "Failed to update registry app 'Signal K': oops")
        }
        other => panic!("unexpected {:?}", other),
    }

    // Board lookups
    let r = client.get_board_by_name(answer(404, "", Err("".into())));
    match r {
        Err(e) => {
            assert_eq!(e.kind(), ErrorKind::NotFound);
            assert_eq!(e.message(), "Not found: Board not found");
        }
        Ok(_) => panic!("a board was found"),
    }
    let r = client.get_board_items(answer(404, "", Err("".into())));
    assert_eq!(r.unwrap().len(), 0);
    let r = client.get_board_items(answer(200, "", Ok(empty_board("b", "home"))));
    assert_eq!(r.unwrap().len(), 0);

    // User creation and login
    let r = client.create_initial_user(answer(409, "exists", Ok(())));
    match r {
        Err(e) => {
            assert_eq!(e.kind(), ErrorKind::RemoteRejected);
            assert_eq!(e.message(), "Homarr API error: Failed to create user: exists");
        }
        Ok(_) => panic!("the user was created"),
    }
    assert!(client.create_initial_user(answer(200, "", Ok(()))).is_ok());
    assert!(client.login(answer(302, "", Ok(()))).is_ok());
    assert!(client.login(answer(200, "", Ok(()))).is_ok());
    let r = client.login(answer(401, "", Ok(())));
    assert_eq!(r.unwrap_err().kind(), ErrorKind::AuthRejected);

    // Key rotation
    let r = client.rotate_api_key(answer(401, "used up", Err("".into())));
    match r {
        Err(AdapterError::AuthRejected(m)) => assert_eq!(m, "used up"),
        other => panic!("unexpected {:?}", other),
    }
    let r = client.rotate_api_key(answer(200, "", Ok("id.token".to_string())));
    assert_eq!(r.unwrap(), "id.token");

    // Onboarding step
    let r = client.get_onboarding_step(answer(
        200,
        "",
        Ok(OnboardingStep { current: "user".into(), previous: Some("start".into()) }),
    ));
    assert_eq!(r.unwrap().current, "user");
    let r = client.get_onboarding_step(answer(200, "<html>", Err("not json".into())));
    assert_eq!(r.unwrap_err().kind(), ErrorKind::RemoteProtocol);
}

#[test]
fn setup_requests_carry_the_branding() {
    let client = HomarrClient::new("http://h").unwrap();
    let branding = branding();

    let request = client.create_initial_user_request(&branding);
    assert_eq!(request.url, "http://h/api/trpc/user.initUser");
    match request.body {
        Body::Json(Payload::InitUser { username, password, confirm_password }) => {
            assert_eq!(username, "admin");
            assert_eq!(password, "secret");
            assert_eq!(confirm_password, "secret");
        }
        other => panic!("unexpected body {:?}", other),
    }

    let request = client.configure_settings_request(&branding);
    assert_eq!(request.url, "http://h/api/trpc/serverSettings.initSettings");
    match request.body {
        Body::Json(Payload::InitSettings { analytics, crawling }) => {
            assert!(analytics.enable_integration_data && !analytics.enable_general);
            assert!(crawling.no_index && !crawling.no_translate);
        }
        other => panic!("unexpected body {:?}", other),
    }

    let request = client.login_request("tok", &branding);
    assert_eq!(request.url, "http://h/api/auth/callback/credentials");
    match request.body {
        Body::Form(fields) => {
            assert_eq!(
                fields,
                vec![
                    ("csrfToken".to_string(), "tok".to_string()),
                    ("name".to_string(), "admin".to_string()),
                    ("password".to_string(), "secret".to_string()),
                ]
            );
        }
        other => panic!("unexpected body {:?}", other),
    }

    let request = client.save_board_branding_settings_request("board-1", &branding);
    assert_eq!(request.url, "http://h/api/trpc/board.savePartialBoardSettings");
    match request.body {
        Body::Json(Payload::BoardSettings(settings)) => {
            assert_eq!(settings.id, "board-1");
            assert_eq!(settings.page_title.as_deref(), Some("HaLOS"));
            assert!(settings.meta_title.is_none());
            assert_eq!(settings.logo_image_url.as_deref(), Some("/icons/logo.svg"));
            assert!(settings.favicon_image_url.is_none());
            assert_eq!(settings.primary_color, "#112233");
            assert_eq!(settings.secondary_color, "#445566");
            assert_eq!(settings.opacity, 100);
            assert_eq!(settings.item_radius, "lg");
            assert!(settings.background_image_url.is_none());
            assert!(settings.custom_css.is_none());
        }
        other => panic!("unexpected body {:?}", other),
    }

    let request = client.create_board_request(&branding);
    assert_eq!(request.url, "http://h/api/trpc/board.createBoard");
    match request.body {
        Body::Json(Payload::CreateBoard { name, column_count, is_public }) => {
            assert_eq!(name, "home");
            assert_eq!(column_count, 12);
            assert!(is_public);
        }
        other => panic!("unexpected body {:?}", other),
    }
}

#[test]
fn items_are_read_from_json() {
    let value = object(vec![
        ("id", Value::from("item-1")),
        ("kind", Value::from("app")),
        ("options", object(vec![("appId", Value::from("app-1")), ("extra", Value::from(1))])),
        (
            "layouts",
            Value::Array(vec![object(vec![
                ("layoutId", Value::from("lay-1")),
                ("sectionId", Value::from("sec-1")),
                ("width", Value::from(2)),
                ("height", Value::from(3)),
                ("xOffset", Value::from(4)),
                ("yOffset", Value::from(5)),
            ])]),
        ),
        ("unknown", Value::from("kept")),
    ]);
    let item = BoardItem::from_json(value.clone());
    assert_eq!(item.id, "item-1");
    assert_eq!(item.kind, "app");
    assert_eq!(item.app_id.as_deref(), Some("app-1"));
    let layouts = item.layouts.as_ref().unwrap();
    assert_eq!(layouts.len(), 1);
    assert_eq!(layouts[0].layout_id, "lay-1");
    assert_eq!(layouts[0].section_id, "sec-1");
    assert_eq!(
        (layouts[0].width, layouts[0].height, layouts[0].x_offset, layouts[0].y_offset),
        (Some(2), Some(3), Some(4), Some(5))
    );
    assert_eq!(item.source.as_ref(), Some(&value));

    // What was read is written back as it came, with what the adapter does
    // not understand.
    let written = items_to_json(vec![item]);
    assert_eq!(written, vec![value]);
}

#[test]
fn items_of_the_adapter_are_written_as_json() {
    let item = BoardItem {
        id: "registry-signalk".into(),
        kind: "app".into(),
        app_id: Some("app-1".into()),
        layouts: Some(vec![ItemLayout {
            layout_id: "lay-1".into(),
            section_id: "sec-1".into(),
            width: Some(2),
            height: Some(1),
            x_offset: Some(3),
            y_offset: None,
        }]),
        source: None,
    };
    let written = items_to_json(vec![item]);
    let expected = object(vec![
        ("id", Value::from("registry-signalk")),
        ("kind", Value::from("app")),
        ("options", object(vec![("appId", Value::from("app-1"))])),
        (
            "layouts",
            Value::Array(vec![object(vec![
                ("layoutId", Value::from("lay-1")),
                ("sectionId", Value::from("sec-1")),
                ("width", Value::from(2)),
                ("height", Value::from(1)),
                ("xOffset", Value::from(3)),
                ("yOffset", Value::Null),
            ])]),
        ),
        ("integrationIds", Value::Array(vec![])),
        ("advancedOptions", object(vec![("customCssClasses", Value::Array(vec![]))])),
    ]);
    assert_eq!(written, vec![expected]);

    // And read back as the same tile.
    let back = items_from_json(written);
    assert_eq!(back[0].id, "registry-signalk");
    assert_eq!(back[0].app_id.as_deref(), Some("app-1"));
    assert!(board_has_app(&back, "app-1"));
    let layouts = back[0].layouts.as_ref().unwrap();
    assert_eq!((layouts[0].x_offset, layouts[0].y_offset), (Some(3), None));

    // An item without an app and without positions.
    let bare = BoardItem {
        id: "x".into(),
        kind: "clock".into(),
        app_id: None,
        layouts: None,
        source: None,
    };
    let written = items_to_json(vec![bare]);
    assert_eq!(written[0].get("options").unwrap().get("appId"), Some(&Value::Null));
    assert!(written[0].get("layouts").is_none());
}

fn parsed(text: &str) -> Value {
    serde_json::from_str(text).unwrap()
}

fn argument(payload: Payload) -> Value {
    let mut sent = payload.to_json();
    let keys: Vec<String> = sent.as_object().unwrap().keys().cloned().collect();
    assert_eq!(keys, vec!["json".to_string()]);
    sent["json"].take()
}

#[test]
fn arguments_are_written_as_the_dashboard_expects_them() {
    assert_eq!(argument(Payload::Nothing), parsed("{}"));
    assert_eq!(
        argument(Payload::InitUser {
            username: "admin".into(),
            password: "secret".into(),
            confirm_password: "secret".into(),
        }),
        parsed(r#"{"username":"admin","password":"secret","confirmPassword":"secret"}"#)
    );
    let b = branding();
    assert_eq!(
        argument(Payload::InitSettings {
            analytics: b.settings.analytics,
            crawling: b.settings.crawling,
        }),
        parsed(
            r#"{"analytics":{"enableGeneral":false,"enableWidgetData":false,
                "enableIntegrationData":true,"enableUserData":false},
               "crawlingAndIndexing":{"noIndex":true,"noFollow":true,"noTranslate":false,
                "noSiteLinksSearchBox":true}}"#
        )
    );
    assert_eq!(
        argument(Payload::CreateBoard { name: "home".into(), column_count: 12, is_public: true }),
        parsed(r#"{"name":"home","columnCount":12,"isPublic":true}"#)
    );
    assert_eq!(argument(Payload::BoardId { id: "b1".into() }), parsed(r#"{"id":"b1"}"#));
    assert_eq!(
        argument(Payload::ColorScheme { color_scheme: "dark".into() }),
        parsed(r#"{"colorScheme":"dark"}"#)
    );
}

#[test]
fn apps_are_written_with_or_without_id_and_ping() {
    let app = definition("Signal K", "http://halos.local:3000");
    assert_eq!(
        argument(Payload::App(app_payload(&app, None))),
        parsed(
            r#"{"name":"Signal K","description":"","iconUrl":"/icons/docker.svg",
               "href":"http://halos.local:3000","pingUrl":"http://host.docker.internal:3000/"}"#
        )
    );
    let mut external = definition("Docs", "https://docs.example.com");
    external.app_type.external = true;
    assert_eq!(
        argument(Payload::App(app_payload(&external, Some("app-9")))),
        parsed(
            r#"{"id":"app-9","name":"Docs","description":"","iconUrl":"/icons/docker.svg",
               "href":"https://docs.example.com","pingUrl":null}"#
        )
    );
}

#[test]
fn board_settings_are_written_without_what_is_left_open() {
    let client = HomarrClient::new("http://h").unwrap();
    let request = client.save_board_branding_settings_request("board-1", &branding());
    let payload = match request.body {
        Body::Json(payload) => payload,
        other => panic!("unexpected body {:?}", other),
    };
    assert_eq!(
        argument(payload),
        parsed(
            r##"{"id":"board-1","pageTitle":"HaLOS","logoImageUrl":"/icons/logo.svg",
               "primaryColor":"#112233","secondaryColor":"#445566","opacity":100,
               "itemRadius":"lg"}"##
        )
    );
}

#[test]
fn a_board_is_saved_with_what_was_read_and_what_was_added() {
    let client = HomarrClient::new("http://h").unwrap();
    let text = r#"{"result":{"data":{"json":{
        "id":"board-1","name":"home",
        "sections":[{"id":"sec-1","kind":"empty","yOffset":0,"xOffset":0,"extra":true}],
        "layouts":[{"id":"lay-1","name":"Base","columnCount":12,"breakpoint":0}],
        "items":[{"id":"clock","kind":"clock","options":{"timezone":"UTC"},
                  "layouts":[{"layoutId":"lay-1","sectionId":"sec-1","width":2,"height":1,
                              "xOffset":0,"yOffset":0}],
                  "integrationIds":["i1"]}]
    }}}}"#;
    let reply = wire::board_answer(200, text.to_string());
    let board = client.get_board_by_name(reply).unwrap();
    assert_eq!(board.id, "board-1");
    assert_eq!(board.sections.len(), 1);
    assert_eq!(board.layouts[0].column_count, 12);
    assert_eq!(board.items.len(), 1);

    let mut app = definition("Signal K", "http://halos.local:3000");
    app.app_type.container_name = Some("signalk".into());
    let request = match client.add_registry_app_to_board("app-1", &app, board).unwrap() {
        BoardPlan::Append { request } => request,
        other => panic!("unexpected plan {:?}", other),
    };
    let payload = match request.body {
        Body::Json(payload) => payload,
        other => panic!("unexpected body {:?}", other),
    };
    assert_eq!(
        argument(payload),
        parsed(
            r#"{"id":"board-1",
               "sections":[{"id":"sec-1","kind":"empty","yOffset":0,"xOffset":0}],
               "items":[
                 {"id":"clock","kind":"clock","options":{"timezone":"UTC"},
                  "layouts":[{"layoutId":"lay-1","sectionId":"sec-1","width":2,"height":1,
                              "xOffset":0,"yOffset":0}],
                  "integrationIds":["i1"]},
                 {"id":"registry-signalk","kind":"app","options":{"appId":"app-1"},
                  "layouts":[{"layoutId":"lay-1","sectionId":"sec-1","width":1,"height":1,
                              "xOffset":2,"yOffset":0}],
                  "integrationIds":[],"advancedOptions":{"customCssClasses":[]}}
               ],
               "integrations":[]}"#
        )
    );
}

#[test]
fn answers_are_read_from_json() {
    let step = wire::step_answer(
        200,
        r#"{"result":{"data":{"json":{"current":"user","previous":null}}}}"#.to_string(),
    );
    match step {
        Reply::Answer { status: 200, decoded: Ok(step), .. } => {
            assert_eq!(step.current, "user");
            assert!(step.previous.is_none());
        }
        other => panic!("unexpected {:?}", other),
    }
    let step = wire::step_answer(
        200,
        r#"{"result":{"data":{"json":{"current":"settings","previous":"user"}}}}"#.to_string(),
    );
    match step {
        Reply::Answer { decoded: Ok(step), .. } => {
            assert_eq!(step.previous.as_deref(), Some("user"))
        }
        other => panic!("unexpected {:?}", other),
    }

    // Malformed in three ways: no JSON, no result, no member.
    match wire::step_answer(200, "<html>".to_string()) {
        Reply::Answer { decoded: Err(_), text, .. } => assert_eq!(text, "<html>"),
        other => panic!("unexpected {:?}", other),
    }
    match wire::step_answer(200, r#"{"error":"x"}"#.to_string()) {
        Reply::Answer { decoded: Err(m), .. } => assert_eq!(m, "the answer holds no result"),
        other => panic!("unexpected {:?}", other),
    }
    match wire::step_answer(200, r#"{"result":{"data":{"json":{"current":7}}}}"#.to_string()) {
        Reply::Answer { decoded: Err(m), .. } => {
            assert_eq!(m, "missing or malformed member current")
        }
        other => panic!("unexpected {:?}", other),
    }

    match wire::csrf_answer(200, r#"{"csrfToken":"tok"}"#.to_string()) {
        Reply::Answer { decoded: Ok(token), .. } => assert_eq!(token, "tok"),
        other => panic!("unexpected {:?}", other),
    }
    match wire::created_board_answer(
        200,
        r#"{"result":{"data":{"json":{"boardId":"b7"}}}}"#.to_string(),
    ) {
        Reply::Answer { decoded: Ok(id), .. } => assert_eq!(id, "b7"),
        other => panic!("unexpected {:?}", other),
    }
    match wire::created_app_answer(
        200,
        r#"{"result":{"data":{"json":{"appId":"a7","id":"item"}}}}"#.to_string(),
    ) {
        Reply::Answer { decoded: Ok(id), .. } => assert_eq!(id, "a7"),
        other => panic!("unexpected {:?}", other),
    }
    match wire::api_key_answer(
        200,
        r#"{"result":{"data":{"json":{"apiKey":"id.token"}}}}"#.to_string(),
    ) {
        Reply::Answer { decoded: Ok(key), .. } => assert_eq!(key, "id.token"),
        other => panic!("unexpected {:?}", other),
    }
    match wire::plain_answer(204, String::new()) {
        Reply::Answer { status: 204, decoded: Ok(()), .. } => {}
        other => panic!("unexpected {:?}", other),
    }
}

#[test]
fn lists_are_read_whole_or_not_at_all() {
    let apps = wire::apps_answer(
        200,
        r#"{"result":{"data":{"json":[
            {"id":"a","name":"A","iconUrl":"/i.svg","href":"http://a"},
            {"id":"b","name":"B","iconUrl":"/j.svg","href":null},
            {"id":"c","name":"C","iconUrl":"/k.svg"}
        ]}}}"#
            .to_string(),
    );
    match apps {
        Reply::Answer { decoded: Ok(apps), .. } => {
            assert_eq!(apps.len(), 3);
            assert_eq!(apps[0].href.as_deref(), Some("http://a"));
            assert!(apps[1].href.is_none());
            assert!(apps[2].href.is_none());
            assert_eq!(apps[2].icon_url, "/k.svg");
        }
        other => panic!("unexpected {:?}", other),
    }
    // One app without a name spoils the list.
    let apps = wire::apps_answer(
        200,
        r#"{"result":{"data":{"json":[
            {"id":"a","name":"A","iconUrl":"/i.svg"},
            {"id":"b","iconUrl":"/j.svg"}
        ]}}}"#
            .to_string(),
    );
    match apps {
        Reply::Answer { decoded: Err(m), .. } => assert_eq!(m, "missing or malformed member apps"),
        other => panic!("unexpected {:?}", other),
    }
    let boards = wire::boards_answer(
        200,
        r#"{"result":{"data":{"json":[{"id":"b1","name":"home","isPublic":true}]}}}"#
            .to_string(),
    );
    match boards {
        Reply::Answer { decoded: Ok(boards), .. } => {
            assert_eq!(boards.len(), 1);
            assert_eq!((boards[0].id.as_str(), boards[0].name.as_str()), ("b1", "home"));
        }
        other => panic!("unexpected {:?}", other),
    }
    match wire::boards_answer(200, r#"{"result":{"data":{"json":{}}}}"#.to_string()) {
        Reply::Answer { decoded: Err(m), .. } => {
            assert_eq!(m, "missing or malformed member boards")
        }
        other => panic!("unexpected {:?}", other),
    }
}

#[test]
fn a_board_needs_its_sections_and_layouts_but_not_its_items() {
    let without_items = r#"{"result":{"data":{"json":{
        "id":"b","name":"n","sections":[],"layouts":[]}}}}"#;
    match wire::board_answer(200, without_items.to_string()) {
        Reply::Answer { decoded: Ok(board), .. } => assert!(board.items.is_empty()),
        other => panic!("unexpected {:?}", other),
    }
    for malformed in [
        r#"{"result":{"data":{"json":{"name":"n","sections":[],"layouts":[]}}}}"#,
        r#"{"result":{"data":{"json":{"id":"b","name":"n","layouts":[]}}}}"#,
        r#"{"result":{"data":{"json":{"id":"b","name":"n","sections":[{"id":"s"}],"layouts":[]}}}}"#,
        r#"{"result":{"data":{"json":{"id":"b","name":"n","sections":[],
            "layouts":[{"id":"l","name":"Base","columnCount":4294967296,"breakpoint":0}]}}}}"#,
    ] {
        match wire::board_answer(200, malformed.to_string()) {
            Reply::Answer { decoded: Err(m), .. } => {
                assert_eq!(m, "missing or malformed member board")
            }
            other => panic!("unexpected {:?}", other),
        }
    }
}
