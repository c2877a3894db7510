use comichost::globals::Globals;
use comichost::page::admin_access;
use comichost::page::assemble_page_values;
use comichost::page::nav_endpoint_href;
use comichost::page::slug_href;
use comichost::session::random_str;
use comichost::users::Users;
use comichost::users::UsersLoadError;

#[test]
fn globals_get_returns_what_amend_recorded() {
    let mut g = Globals::new();
    assert_eq!(g.get("title"), None);
    g.amend("title", "A Comic".to_string());
    assert_eq!(g.get("title"), Some("A Comic"));
    g.amend("title", "Renamed".to_string());
    assert_eq!(g.get("title"), Some("Renamed"));
}

#[test]
fn globals_with_chains_values() {
    let g = Globals::new().with("a", "1".to_string()).with("b", "2".to_string());
    assert_eq!(g.get("a"), Some("1"));
    assert_eq!(g.get("b"), Some("2"));
    assert_eq!(g.get("c"), None);
}

#[test]
fn users_authorize_checks_exact_equality() {
    let json = r#"[{"username": "editor", "password": "opensesame"}]"#;
    let users = Users::from_file(Some(json)).unwrap();
    assert!(users.authorize("editor", "opensesame"));
    assert!(!users.authorize("editor", "wrong"));
    assert!(!users.authorize("editor", ""));
    assert!(!users.authorize("nobody", "opensesame"));
}

#[test]
fn users_duplicate_name_last_wins() {
    let json = r#"[
        {"username": "editor", "password": "old"},
        {"username": "editor", "password": "new"}
    ]"#;
    let users = Users::from_file(Some(json)).unwrap();
    assert!(users.authorize("editor", "new"));
    assert!(!users.authorize("editor", "old"));
}

#[test]
fn users_missing_password_fails_the_load() {
    let json = r#"[{"username": "editor"}]"#;
    assert!(matches!(
        Users::from_file(Some(json)),
        Err(UsersLoadError::RecordMissingField)
    ));
}

#[test]
fn users_bad_document_fails_the_load() {
    assert!(matches!(Users::from_file(Some("{}")), Err(UsersLoadError::NotRecords)));
}

#[test]
fn users_missing_file_authorizes_nobody() {
    let users = Users::from_file(None).unwrap();
    assert!(!users.authorize("anyone", "anything"));
}

#[test]
fn random_token_has_the_asked_length_and_alphabet() {
    let t = random_str(120);
    assert_eq!(t.chars().count(), 120);
    for c in t.chars() {
        assert!("abcdefghijklmnopqrstuvyzABCDEFGHIJKLMNOPQRSTUVYZ1234567890".contains(c));
    }
    assert_eq!(random_str(0), "");
}

#[test]
fn admin_access_needs_the_exact_session_cookie() {
    let cookies = vec![
        ("theme".to_string(), "dark".to_string()),
        ("session".to_string(), "tok123".to_string()),
    ];
    assert!(admin_access(&cookies, "tok123"));
    assert!(!admin_access(&cookies, "other"));
    assert!(!admin_access(&Vec::new(), "tok123"));
    let wrong = vec![("session2".to_string(), "tok123".to_string())];
    assert!(!admin_access(&wrong, "tok123"));
}

#[test]
fn admin_access_uses_the_first_session_cookie() {
    let cookies = vec![
        ("session".to_string(), "first".to_string()),
        ("session".to_string(), "second".to_string()),
    ];
    assert!(admin_access(&cookies, "first"));
    assert!(!admin_access(&cookies, "second"));
}

#[test]
fn nav_helpers_build_page_paths() {
    assert_eq!(slug_href("b"), "/c/b");
    assert_eq!(nav_endpoint_href(Some("a".to_string()), "b"), Some("/c/a".to_string()));
    assert_eq!(nav_endpoint_href(Some("b".to_string()), "b"), None);
    assert_eq!(nav_endpoint_href(None, "b"), None);
}

#[test]
fn page_values_for_a_middle_page() {
    let vals = assemble_page_values(
        "Second".to_string(),
        "b.800x450.png",
        None,
        Some("a".to_string()),
        Some("a".to_string()),
        Some("c".to_string()),
        Some("c".to_string()),
        "b",
    );
    assert_eq!(vals.get("title"), Some("Second"));
    assert_eq!(vals.get("file"), Some("/ic/b.800x450.png"));
    assert_eq!(vals.get("width"), Some(""));
    assert_eq!(vals.get("height"), Some(""));
    assert_eq!(vals.get("admin_controls"), Some(""));
    assert_eq!(vals.get("first_disabled"), Some(""));
    assert_eq!(vals.get("first_href"), Some("/c/a"));
    assert_eq!(vals.get("prev_disabled"), Some(""));
    assert_eq!(vals.get("prev_href"), Some("/c/a"));
    assert_eq!(vals.get("random_disabled"), Some(""));
    assert_eq!(vals.get("random_href"), Some("/random"));
    assert_eq!(vals.get("next_disabled"), Some(""));
    assert_eq!(vals.get("next_href"), Some("/c/c"));
    assert_eq!(vals.get("last_disabled"), Some(""));
    assert_eq!(vals.get("last_href"), Some("/c/c"));
}

#[test]
fn page_values_for_the_first_page_disable_first_and_prev() {
    let vals = assemble_page_values(
        "First".to_string(),
        "",
        Some("<div>admin</div>".to_string()),
        Some("a".to_string()),
        None,
        Some("b".to_string()),
        Some("c".to_string()),
        "a",
    );
    assert_eq!(vals.get("file"), Some("/ic/"));
    assert_eq!(vals.get("admin_controls"), Some("<div>admin</div>"));
    assert_eq!(vals.get("first_disabled"), Some("disabled"));
    assert_eq!(vals.get("first_href"), Some("javascript:;"));
    assert_eq!(vals.get("prev_disabled"), Some("disabled"));
    assert_eq!(vals.get("prev_href"), Some("javascript:;"));
    assert_eq!(vals.get("next_disabled"), Some(""));
    assert_eq!(vals.get("next_href"), Some("/c/b"));
    assert_eq!(vals.get("last_disabled"), Some(""));
    assert_eq!(vals.get("last_href"), Some("/c/c"));
}
