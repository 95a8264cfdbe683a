use crate_docs::store::{sanitize_requested_path, Store, StoredCrate};

#[test]
fn make_crate_joins_root_name_and_version() {
    let store = Store::new("/srv/docs".to_string());
    let krate = store.make_crate("widget", "1.0");
    assert_eq!(krate.0, "/srv/docs/widget/1.0");
    assert_eq!(krate.path(), "/srv/docs/widget/1.0");
}

#[test]
fn contains_is_false_for_missing_artifact() {
    let store = Store::new("./no-such-store-root".to_string());
    let krate = store.make_crate("widget", "1.0");
    assert!(!store.contains(&krate));
}

#[test]
fn contains_is_true_for_present_path() {
    let store = Store::new(".".to_string());
    let krate = StoredCrate("./src".to_string());
    assert!(store.contains(&krate));
}

#[test]
fn crate_names_keeps_directories_in_order() {
    let store = Store::new("docs".to_string());
    let entries = vec![
        ("serde".to_string(), true),
        ("README".to_string(), false),
        ("widget".to_string(), true),
    ];
    assert_eq!(store.crate_names(&entries), vec!["serde".to_string(), "widget".to_string()]);
    assert!(store.crate_names(&vec![]).is_empty());
}

#[test]
fn requested_path_loses_one_trailing_slash() {
    assert_eq!(sanitize_requested_path("widget/index.html"), "widget/index.html");
    assert_eq!(sanitize_requested_path("widget/"), "widget");
    assert_eq!(sanitize_requested_path("a//"), "a/");
    assert_eq!(sanitize_requested_path(""), "");
}
