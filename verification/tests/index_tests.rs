use comichost::index::Index;
use comichost::index::IndexLoadError;

const THREE: &str = r#"[
    {"title": "First", "slug": "a", "file": "a.png"},
    {"title": "Second", "slug": "b", "file": "b.png"},
    {"title": "Third", "slug": "c", "file": "c.png"}
]"#;

#[test]
fn find_middle_links_both_neighbours() {
    let idx = Index::from_file(Some(THREE)).unwrap();
    let f = idx.find("b").unwrap();
    assert_eq!(f.title, "Second");
    assert_eq!(f.file, "b.png");
    assert_eq!(f.prev_slug.as_deref(), Some("a"));
    assert_eq!(f.next_slug.as_deref(), Some("c"));
}

#[test]
fn first_has_no_prev_and_last_has_no_next() {
    let idx = Index::from_file(Some(THREE)).unwrap();
    let first = idx.first_slug().unwrap();
    let last = idx.last_slug().unwrap();
    assert_eq!(first, "a");
    assert_eq!(last, "c");
    assert!(idx.find(&first).unwrap().prev_slug.is_none());
    assert!(idx.find(&last).unwrap().next_slug.is_none());
}

#[test]
fn next_chain_visits_every_entry_in_order() {
    let idx = Index::from_file(Some(THREE)).unwrap();
    let mut visited: Vec<String> = Vec::new();
    let mut cur = idx.first_slug();
    while let Some(slug) = cur {
        visited.push(slug.clone());
        cur = idx.find(&slug).unwrap().next_slug;
    }
    assert_eq!(visited, vec!["a".to_string(), "b".to_string(), "c".to_string()]);
}

#[test]
fn unknown_slug_is_not_found() {
    let idx = Index::from_file(Some(THREE)).unwrap();
    assert!(idx.find("zzz").is_none());
}

#[test]
fn record_missing_slug_fails_the_load() {
    let json = r#"[{"title": "First", "file": "a.png"}]"#;
    assert!(matches!(Index::from_file(Some(json)), Err(IndexLoadError::RecordMissingField)));
}

#[test]
fn record_missing_title_fails_the_load() {
    let json = r#"[{"slug": "a", "file": "a.png"}]"#;
    assert!(matches!(Index::from_file(Some(json)), Err(IndexLoadError::RecordMissingField)));
}

#[test]
fn not_json_fails_the_load() {
    assert!(matches!(Index::from_file(Some("not json at all")), Err(IndexLoadError::NotRecords)));
}

#[test]
fn non_string_field_fails_the_load() {
    let json = r#"[{"title": "First", "slug": "a", "file": 7}]"#;
    assert!(matches!(Index::from_file(Some(json)), Err(IndexLoadError::NotRecords)));
}

#[test]
fn missing_file_gives_an_empty_navigable_index() {
    let idx = Index::from_file(None).unwrap();
    assert!(idx.first_slug().is_none());
    assert!(idx.last_slug().is_none());
    assert!(idx.random_slug().is_none());
    assert!(idx.find("a").is_none());
}

#[test]
fn empty_array_gives_an_empty_index() {
    let idx = Index::from_file(Some("[]")).unwrap();
    assert!(idx.first_slug().is_none());
    assert!(idx.last_slug().is_none());
}

#[test]
fn duplicate_slug_resolves_to_the_last_entry() {
    let json = r#"[
        {"title": "Old", "slug": "a", "file": "old.png"},
        {"title": "New", "slug": "a", "file": "new.png"}
    ]"#;
    let idx = Index::from_file(Some(json)).unwrap();
    let f = idx.find("a").unwrap();
    assert_eq!(f.title, "New");
    assert_eq!(f.file, "new.png");
    assert_eq!(f.prev_slug.as_deref(), Some("a"));
}

#[test]
fn random_slug_returns_a_loaded_slug() {
    let idx = Index::from_file(Some(THREE)).unwrap();
    let slug = idx.random_slug().unwrap();
    assert!(slug == "a" || slug == "b" || slug == "c");
}

#[test]
fn single_entry_random_slug_is_that_slug() {
    let json = r#"[{"title": "Only", "slug": "solo", "file": "s.png"}]"#;
    let idx = Index::from_file(Some(json)).unwrap();
    assert_eq!(idx.random_slug().unwrap(), "solo");
}
