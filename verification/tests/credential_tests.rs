use penguin_downloader_tui::credential::CredentialStore;

#[test]
fn new_store_is_empty() {
    let s = CredentialStore::new();
    assert!(s.entries().is_empty());
    assert_eq!(s.get_credential("qq"), None);
    assert!(!s.has_credential("qq"));
}

#[test]
fn get_after_set_returns_credential() {
    let mut s = CredentialStore::new();
    s.set_credential("qq".to_string(), "cookie=1".to_string());
    assert_eq!(s.get_credential("qq"), Some("cookie=1"));
    assert!(s.has_credential("qq"));
    assert_eq!(s.get_credential("netease"), None);
}

#[test]
fn set_overwrites_existing_credential() {
    let mut s = CredentialStore::new();
    s.set_credential("qq".to_string(), "a".to_string());
    s.set_credential("qq".to_string(), "b".to_string());
    assert_eq!(s.get_credential("qq"), Some("b"));
    assert_eq!(s.entries().len(), 1);
}

#[test]
fn set_leaves_other_providers() {
    let mut s = CredentialStore::new();
    s.set_credential("a".to_string(), "1".to_string());
    s.set_credential("b".to_string(), "2".to_string());
    assert_eq!(s.get_credential("a"), Some("1"));
    assert_eq!(s.get_credential("b"), Some("2"));
}

#[test]
fn remove_deletes_only_that_provider() {
    let mut s = CredentialStore::new();
    s.set_credential("a".to_string(), "1".to_string());
    s.set_credential("b".to_string(), "2".to_string());
    s.remove_credential("a");
    assert_eq!(s.get_credential("a"), None);
    assert!(!s.has_credential("a"));
    assert_eq!(s.get_credential("b"), Some("2"));
    s.remove_credential("missing");
    assert_eq!(s.entries().len(), 1);
}

#[test]
fn remove_undoes_set_on_fresh_key() {
    let mut s = CredentialStore::from_entries(vec![("x".to_string(), "9".to_string())]);
    s.set_credential("y".to_string(), "8".to_string());
    s.remove_credential("y");
    assert_eq!(s.entries().len(), 1);
    assert_eq!(s.get_credential("x"), Some("9"));
    assert_eq!(s.get_credential("y"), None);
}

#[test]
fn from_entries_later_pairs_win() {
    let s = CredentialStore::from_entries(vec![
        ("a".to_string(), "1".to_string()),
        ("a".to_string(), "2".to_string()),
        ("b".to_string(), "3".to_string()),
    ]);
    assert_eq!(s.get_credential("a"), Some("2"));
    assert_eq!(s.get_credential("b"), Some("3"));
    assert_eq!(s.entries().len(), 2);
}
