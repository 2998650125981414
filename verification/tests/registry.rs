use homarr_container_adapter::error::AdapterError;
use homarr_container_adapter::registry::{
    apps_by_url, check_registry_dir, default_priority, default_size, default_visible, is_registry_file, load_all_apps,
    load_app_file, sort_by_priority, AppDefinition, AppType, LayoutConfig, RegistryEntry,
    RegistryFile, DEFAULT_REGISTRY_DIR,
};

fn definition(name: &str, url: &str) -> AppDefinition {
    AppDefinition {
        name: name.to_string(),
        url: url.to_string(),
        description: None,
        icon_url: None,
        category: None,
        app_type: AppType::default(),
        ping_url: None,
        visible: default_visible(),
        layout: LayoutConfig::default(),
    }
}

fn with_priority(name: &str, url: &str, priority: u8) -> AppDefinition {
    let mut app = definition(name, url);
    app.layout.priority = priority;
    app
}

fn app_file(name: &str, parsed: Result<AppDefinition, String>) -> RegistryFile {
    RegistryFile {
        file_name: format!("{}.toml", name),
        path: format!("/etc/halos/webapps.d/{}.toml", name),
        parsed,
    }
}

fn entry(name: &str, url: &str, priority: u8) -> RegistryEntry {
    RegistryEntry { file_path: format!("{}.toml", name), app: with_priority(name, url, priority) }
}

#[test]
fn test_load_minimal_app() {
    let files = vec![app_file("test-app", Ok(definition("Test App", "http://localhost:8080")))];

    let entries = load_all_apps(files);
    assert_eq!(entries.len(), 1);
    assert_eq!(entries[0].app.name, "Test App");
    assert_eq!(entries[0].app.url, "http://localhost:8080");
    assert_eq!(entries[0].app.priority(), 50); // default
    assert!(!entries[0].app.is_container());
    assert!(!entries[0].app.is_external());
}

#[test]
fn test_load_full_app() {
    let files = vec![app_file(
        "signalk",
        Ok(AppDefinition {
            name: "Signal K".to_string(),
            url: "http://halos.local:3000".to_string(),
            description: Some("Marine data server".to_string()),
            icon_url: Some("/icons/signalk.png".to_string()),
            category: Some("Marine".to_string()),
            app_type: AppType { container_name: Some("signalk-server".to_string()), external: false },
            ping_url: None,
            visible: true,
            layout: LayoutConfig {
                priority: 25,
                width: 2,
                height: 2,
                x_offset: Some(0),
                y_offset: Some(0),
            },
        }),
    )];

    let entries = load_all_apps(files);
    assert_eq!(entries.len(), 1);

    let app = &entries[0].app;
    assert_eq!(app.name, "Signal K");
    assert_eq!(app.priority(), 25);
    assert!(app.is_container());
    assert_eq!(app.container_name(), Some("signalk-server"));

    let layout = app.effective_layout();
    assert_eq!(layout.priority, 25);
    assert_eq!(layout.width, 2);
    assert_eq!(layout.height, 2);
    assert_eq!(layout.x_offset, Some(0));
    assert_eq!(layout.y_offset, Some(0));
}

#[test]
fn test_load_external_app() {
    let mut app = with_priority("Documentation", "https://docs.example.com", 85);
    app.app_type.external = true;
    let files = vec![app_file("docs", Ok(app))];

    let entries = load_all_apps(files);
    assert_eq!(entries.len(), 1);
    assert!(entries[0].app.is_external());
    assert!(!entries[0].app.is_container());
    assert_eq!(entries[0].app.priority(), 85);
}

#[test]
fn test_priority_sorting() {
    let files = vec![
        app_file("app-c", Ok(with_priority("App C", "http://localhost:3", 50))),
        app_file("app-a", Ok(with_priority("App A", "http://localhost:1", 10))),
        app_file("app-b", Ok(with_priority("App B", "http://localhost:2", 25))),
    ];

    let entries = load_all_apps(files);
    assert_eq!(entries.len(), 3);

    // Should be sorted by priority
    assert_eq!(entries[0].app.name, "App A");
    assert_eq!(entries[1].app.name, "App B");
    assert_eq!(entries[2].app.name, "App C");
}

#[test]
fn test_empty_directory() {
    let entries = load_all_apps(vec![]);
    assert!(entries.is_empty());
}

#[test]
fn test_nonexistent_directory() {
    let read = check_registry_dir("/nonexistent/path", false, false).unwrap();
    let entries = if read { load_all_apps(vec![]) } else { Vec::new() };
    assert!(entries.is_empty());
}

#[test]
fn registry_path_must_be_a_directory() {
    assert!(check_registry_dir("/etc/halos/webapps.d", true, true).unwrap());
    let r = check_registry_dir("/etc/passwd", true, false);
    assert!(matches!(r, Err(AdapterError::Config(ref m))
        if m == "Registry path is not a directory: /etc/passwd"));
}

#[test]
fn test_invalid_file_skipped() {
    let files = vec![
        // Valid file
        app_file("valid", Ok(definition("Valid App", "http://localhost:1"))),
        // Invalid file (missing required field)
        app_file("invalid", Err("missing field `url`".to_string())),
    ];

    let entries = load_all_apps(files);
    // Only valid file should be loaded
    assert_eq!(entries.len(), 1);
    assert_eq!(entries[0].app.name, "Valid App");
}

#[test]
fn test_non_toml_files_ignored() {
    let files = vec![
        app_file("valid", Ok(definition("Valid App", "http://localhost:1"))),
        // A non-TOML file
        RegistryFile {
            file_name: "readme.txt".to_string(),
            path: "/etc/halos/webapps.d/readme.txt".to_string(),
            parsed: Ok(definition("Not an app", "http://localhost:2")),
        },
    ];

    let entries = load_all_apps(files);
    assert_eq!(entries.len(), 1);
}

#[test]
fn registry_file_names() {
    assert!(is_registry_file("app.toml"));
    assert!(is_registry_file("a.b.toml"));
    assert!(is_registry_file("..toml"));
    assert!(is_registry_file("é.toml"));
    assert!(!is_registry_file(".toml"));
    assert!(!is_registry_file("toml"));
    assert!(!is_registry_file("app.toml.bak"));
    assert!(!is_registry_file("app.TOML"));
    assert!(!is_registry_file("apptoml"));
    assert!(!is_registry_file(""));
}

#[test]
fn load_app_file_names_what_is_wrong() {
    let r = load_app_file("/r/a.toml", Err("expected `=`".to_string()));
    assert!(matches!(r, Err(AdapterError::TomlParse(ref m)) if m == "expected `=`"));

    let r = load_app_file("/r/a.toml", Ok(definition("", "http://localhost:1")));
    assert!(matches!(r, Err(AdapterError::Config(ref m)) if m == "App name is empty in /r/a.toml"));

    let r = load_app_file("/r/a.toml", Ok(definition("App", "")));
    assert!(matches!(r, Err(AdapterError::Config(ref m)) if m == "App URL is empty in /r/a.toml"));

    // The name is looked at first.
    let r = load_app_file("/r/a.toml", Ok(definition("", "")));
    assert!(matches!(r, Err(AdapterError::Config(ref m)) if m == "App name is empty in /r/a.toml"));

    let r = load_app_file("/r/a.toml", Ok(definition("App", "http://localhost:1")));
    assert_eq!(r.unwrap().name, "App");
}

#[test]
fn load_all_apps_skips_definitions_without_name_or_url() {
    let files = vec![
        app_file("nameless", Ok(definition("", "http://localhost:1"))),
        app_file("placeless", Ok(definition("App", ""))),
        app_file("fine", Ok(definition("Fine", "http://localhost:2"))),
    ];
    let entries = load_all_apps(files);
    assert_eq!(entries.len(), 1);
    assert_eq!(entries[0].app.name, "Fine");
    assert_eq!(entries[0].file_path, "/etc/halos/webapps.d/fine.toml");
}

#[test]
fn sorting_keeps_the_order_of_equal_priorities() {
    let entries = vec![
        entry("d", "http://d", 50),
        entry("a", "http://a", 10),
        entry("e", "http://e", 50),
        entry("b", "http://b", 10),
        entry("c", "http://c", 0),
        entry("f", "http://f", 255),
        entry("g", "http://g", 50),
    ];
    let sorted = sort_by_priority(entries);
    let names: Vec<&str> = sorted.iter().map(|e| e.app.name.as_str()).collect();
    assert_eq!(names, vec!["c", "a", "b", "d", "e", "g", "f"]);
}

#[test]
fn sorting_nothing_and_one() {
    assert!(sort_by_priority(vec![]).is_empty());
    let sorted = sort_by_priority(vec![entry("a", "http://a", 7)]);
    assert_eq!(sorted.len(), 1);
    assert_eq!(sorted[0].app.priority(), 7);
}

#[test]
fn apps_by_url_keeps_the_last_entry_of_a_url() {
    let entries = vec![
        entry("first", "http://same", 10),
        entry("other", "http://other", 20),
        entry("second", "http://same", 30),
    ];
    let index = apps_by_url(&entries);
    assert_eq!(index.len(), 2);
    assert_eq!(index.get("http://same").unwrap().app.name, "second");
    assert_eq!(index.get("http://other").unwrap().app.name, "other");
    assert!(index.get("http://missing").is_none());
    assert!(apps_by_url(&vec![]).is_empty());
}

#[test]
fn defaults_of_the_registry() {
    assert_eq!(default_priority(), 50);
    assert_eq!(default_size(), 1);
    assert!(default_visible());
    assert_eq!(DEFAULT_REGISTRY_DIR, "/etc/halos/webapps.d");
    let layout = LayoutConfig::default();
    assert_eq!((layout.priority, layout.width, layout.height), (50, 1, 1));
    assert_eq!((layout.x_offset, layout.y_offset), (None, None));
    let kind = AppType::default();
    assert!(kind.container_name.is_none() && !kind.external);
    let app = definition("App", "http://a");
    assert!(app.is_visible());
    assert!(app.container_name().is_none());
}
