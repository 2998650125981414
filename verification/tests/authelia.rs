use homarr_container_adapter::authelia::{
    admin_entry, enter_credentials, hash_password, hashed, sync_authelia_credentials,
    sync_credentials, User, UsersDatabase, HASH_PREFIX,
};
use homarr_container_adapter::collections::StrMap;
use homarr_container_adapter::error::AdapterError;
use homarr_container_adapter::state::State;

#[test]
fn test_hash_password_format() {
    let hash = hash_password("test_password").unwrap();
    // Should start with argon2id identifier
    assert!(hash.starts_with("$argon2id$"));
    // Should contain version
    assert!(hash.contains("v=19"));
}

#[test]
fn test_users_database_load_nonexistent() {
    let result = UsersDatabase::load(None);
    assert!(result.is_ok());
    let db = result.unwrap();
    assert!(db.users.is_empty());
}

#[test]
fn test_users_database_save_and_load() {
    let mut db = UsersDatabase { users: StrMap::new() };

    db.upsert_user(
        "admin",
        User {
            displayname: "Admin User".to_string(),
            password: "$argon2id$test".to_string(),
            email: "admin@test.example.local".to_string(),
            groups: vec!["admins".to_string()],
        },
    );

    // Save
    let text = db.save(Ok("users: {}\n".to_string())).unwrap();
    assert!(text.ends_with("users: {}\n"));

    // Load back
    let loaded = UsersDatabase::load(Some(Ok(db))).unwrap();
    assert_eq!(loaded.users.len(), 1);
    assert!(loaded.users.contains_key("admin"));
    let admin = loaded.users.get("admin").unwrap();
    assert_eq!(admin.displayname, "Admin User");
    assert_eq!(admin.email, "admin@test.example.local");
}

#[test]
fn test_sync_credentials() {
    let mut db = UsersDatabase::load(None).unwrap();

    // Sync credentials
    sync_credentials(&mut db, "testuser", "testpass", Some("test@example.com")).unwrap();

    // Verify
    assert_eq!(db.users.len(), 1);
    let user = db.users.get("testuser").unwrap();
    assert_eq!(user.displayname, "testuser");
    assert_eq!(user.email, "test@example.com");
    assert!(user.password.starts_with("$argon2id$"));
    assert!(user.groups.contains(&"admins".to_string()));
}

#[test]
fn test_sync_credentials_default_email() {
    let mut db = UsersDatabase::load(None).unwrap();

    // Sync without email
    sync_credentials(&mut db, "admin", "password", None).unwrap();

    // Verify default email uses example.local placeholder domain
    let user = db.users.get("admin").unwrap();
    assert_eq!(user.email, "admin@example.local");
}

#[test]
fn hash_password_uses_authelia_parameters_and_a_fresh_salt() {
    let first = hash_password("same").unwrap();
    let second = hash_password("same").unwrap();
    assert!(first.contains("m=65536,t=3,p=4"));
    assert_ne!(first, second);
    assert_ne!(first, "same");
}

#[test]
fn hashed_names_the_step_that_failed() {
    let r = hashed(Err("memory cost is too small".into()), Ok("unused".into()));
    assert!(matches!(r, Err(AdapterError::Config(ref m))
        if m == "Failed to create argon2 params: memory cost is too small"));
    let r = hashed(Ok(()), Err("salt invalid".into()));
    assert!(matches!(r, Err(AdapterError::Config(ref m))
        if m == "Failed to hash password: salt invalid"));
    assert_eq!(hashed(Ok(()), Ok("$argon2id$x".into())).unwrap(), "$argon2id$x");
}

#[test]
fn sync_credentials_replaces_the_user_and_keeps_the_others() {
    let mut db = UsersDatabase::new();
    db.upsert_user("guest", admin_entry("guest", "h0".to_string(), None));
    enter_credentials(&mut db, "admin", Ok("h1".to_string()), Some("a@b.c")).unwrap();
    enter_credentials(&mut db, "admin", Ok("h2".to_string()), None).unwrap();
    assert_eq!(db.users.len(), 2);
    let admin = db.users.get("admin").unwrap();
    assert_eq!(admin.password, "h2");
    assert_eq!(admin.email, "admin@example.local");
    assert_eq!(admin.groups, vec!["admins".to_string()]);
    assert_eq!(db.users.get("guest").unwrap().password, "h0");

    // Without a hash nothing changes.
    let r = enter_credentials(&mut db, "admin", Err(AdapterError::Config("no".into())), None);
    assert!(matches!(r, Err(AdapterError::Config(ref m)) if m == "no"));
    assert_eq!(db.users.get("admin").unwrap().password, "h2");
}

#[test]
fn users_file_has_its_header() {
    let db = UsersDatabase::new();
    let text = db.save(Ok("users: {}\n".to_string())).unwrap();
    assert_eq!(
        text,
        "# Authelia Users Database\n# This file is managed by homarr-container-adapter\n# Manual edits may be overwritten\n\nusers: {}\n"
    );
    let r = db.save(Err("recursion limit".to_string()));
    assert!(matches!(r, Err(AdapterError::State(ref m))
        if m == "Failed to serialize Authelia users database: recursion limit"));
    let r = UsersDatabase::load(Some(Err("bad indentation".to_string())));
    assert!(matches!(r, Err(AdapterError::Config(ref m))
        if m == "Failed to parse Authelia users database: bad indentation"));
}

#[test]
fn authelia_sync_is_recorded_only_when_it_went_through() {
    let mut state = State::default();
    assert!(sync_authelia_credentials(&mut state, None).is_none());
    assert!(!state.authelia_sync_completed);
    let failure = sync_authelia_credentials(&mut state, Some(Err(AdapterError::Io("denied".into()))));
    assert!(matches!(failure, Some(AdapterError::Io(ref m)) if m == "denied"));
    assert!(!state.authelia_sync_completed);
    assert!(sync_authelia_credentials(&mut state, Some(Ok(()))).is_none());
    assert!(state.authelia_sync_completed);
    // Once recorded, it stays.
    sync_authelia_credentials(&mut state, Some(Err(AdapterError::Io("denied".into()))));
    assert!(state.authelia_sync_completed);
}

#[test]
fn every_hash_begins_with_the_variant_and_the_version() {
    assert_eq!(HASH_PREFIX, "$argon2id$v=19");
    for password in ["", "a", "pässwörd", "a much longer password with spaces in it"] {
        let hash = hash_password(password).unwrap();
        assert!(hash.starts_with(HASH_PREFIX), "{}", hash);
        assert!(hash.starts_with("$argon2id$v=19$m=65536,t=3,p=4$"), "{}", hash);
    }
}
