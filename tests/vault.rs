use pass_vault::entry::{Entry, EntryBuilder};
use pass_vault::vault::{Entries, StoreError, StoredVault};

fn entry(site: &str, user: &str, pass: &str) -> Entry {
    Entry::new(site.to_string(), user.to_string(), pass.to_string())
}

#[test]
fn builder_starts_empty() {
    let e = Entry::builder().build();
    assert_eq!(e, entry("", "", ""));
    let d = EntryBuilder::default().build();
    assert_eq!(d, entry("", "", ""));
    let n = EntryBuilder::new().build();
    assert_eq!(n, entry("", "", ""));
}

#[test]
fn builder_trims_label_and_username() {
    let e = Entry::builder()
        .site_app("  example.com \n")
        .username("\talice\r\n")
        .build();
    assert_eq!(e.site_app, "example.com");
    assert_eq!(e.username, "alice");
    assert_eq!(e.password, "");
}

#[test]
fn builder_generates_password_of_requested_length() {
    let e = Entry::builder()
        .site_app("example.com\n")
        .username("alice\n")
        .password(14)
        .build();
    assert_eq!(e.site_app, "example.com");
    assert_eq!(e.username, "alice");
    assert_eq!(e.password.chars().count(), 14);
}

#[test]
fn render_shows_three_lines() {
    let e = entry("example.com", "alice", "XXXXXXXXXXXX");
    assert_eq!(
        e.render(),
        "Site/App: example.com\n - Username: alice\n - Password: XXXXXXXXXXXX"
    );
}

#[test]
fn show_all_lists_in_stored_order() {
    let mut v = Entries::new();
    assert_eq!(v.show_all(), "");
    v.push_entry(entry("a", "u1", "p1"));
    v.push_entry(entry("b", "u2", "p2"));
    assert_eq!(
        v.show_all(),
        "Site/App: a\n - Username: u1\n - Password: p1\n\nSite/App: b\n - Username: u2\n - Password: p2\n\n"
    );
}

#[test]
fn load_without_file_is_empty() {
    let v = Entries::load_entries(StoredVault::Missing).unwrap();
    assert_eq!(v.len(), 0);
    assert!(v.list.is_empty());
}

#[test]
fn load_corrupt_file_fails() {
    assert_eq!(
        Entries::load_entries(StoredVault::Corrupt).err(),
        Some(StoreError::Corrupt)
    );
    assert_eq!(
        Entries::load_entries(StoredVault::Unreadable).err(),
        Some(StoreError::Unreadable)
    );
}

#[test]
fn load_found_file_keeps_entries() {
    let mut v = Entries::new();
    v.push_entry(entry("a", "u", "p"));
    let w = Entries::load_entries(StoredVault::Found(v)).unwrap();
    assert_eq!(w.list, vec![entry("a", "u", "p")]);
}

#[test]
fn append_adds_one_entry_last() {
    let mut v = Entries::new();
    v.push_entry(entry("a", "u", "p"));
    v.push_entry(entry("a", "u", "p"));
    let before = v.len();
    let w = Entries::write_new_entry(StoredVault::Found(v), entry("c", "w", "z")).unwrap();
    assert_eq!(w.len(), before + 1);
    assert_eq!(w.list.last(), Some(&entry("c", "w", "z")));
    assert_eq!(w.list[0], entry("a", "u", "p"));
    assert_eq!(w.list[1], entry("a", "u", "p"));
}

#[test]
fn append_to_unloadable_vault_fails() {
    let e = entry("c", "w", "z");
    assert_eq!(
        Entries::write_new_entry(StoredVault::Corrupt, e.clone()).err(),
        Some(StoreError::Corrupt)
    );
    assert_eq!(
        Entries::write_new_entry(StoredVault::Unreadable, e).err(),
        Some(StoreError::Unreadable)
    );
}

#[test]
fn two_appends_from_empty_vault() {
    let first = entry("example.com", "alice", "XXXXXXXXXXXX");
    let v = Entries::write_new_entry(StoredVault::Missing, first.clone()).unwrap();
    assert_eq!(v.list, vec![first.clone()]);
    let second = entry("example.org", "bob", "YYYYYYYYYYYYYY");
    let w = Entries::write_new_entry(StoredVault::Found(v), second.clone()).unwrap();
    assert_eq!(w.list, vec![first, second]);
}

#[test]
fn find_returns_first_matching_label() {
    let mut v = Entries::new();
    v.push_entry(entry("a", "u1", "p1"));
    v.push_entry(entry("b", "u2", "p2"));
    v.push_entry(entry("b", "u3", "p3"));
    assert_eq!(v.find("b"), Some(1));
    assert_eq!(v.find("a"), Some(0));
    assert_eq!(v.find("c"), None);
    assert_eq!(v.find(""), None);
    assert_eq!(Entries::new().find("a"), None);
}
