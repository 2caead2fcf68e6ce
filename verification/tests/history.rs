use rusqlite::Connection;
use std::collections::HashSet;
use wthiromc::history::new_identifiers;

/// The history table, in an in-memory database.
fn test_conn() -> Connection {
    let conn = Connection::open_in_memory().unwrap();
    conn.execute(
        "CREATE TABLE IF NOT EXISTS seen_items (
            identifier TEXT NOT NULL,
            kind TEXT NOT NULL,
            display_name TEXT NOT NULL,
            first_seen TEXT NOT NULL,
            last_seen TEXT NOT NULL,
            PRIMARY KEY (identifier, kind)
        )",
        [],
    )
    .unwrap();
    conn
}

#[test]
fn upsert_inserts_new_and_updates_existing() {
    let conn = test_conn();

    conn.execute(
        "INSERT INTO seen_items (identifier, kind, display_name, first_seen, last_seen)
         VALUES (?1, ?2, ?3, datetime('now'), datetime('now'))
         ON CONFLICT(identifier, kind) DO UPDATE SET last_seen = datetime('now')",
        ("C:\\tools\\cargo.exe", "process", "cargo"),
    )
    .unwrap();

    let count: i64 = conn
        .query_row("SELECT COUNT(*) FROM seen_items", [], |row| row.get(0))
        .unwrap();
    assert_eq!(count, 1);

    conn.execute(
        "INSERT INTO seen_items (identifier, kind, display_name, first_seen, last_seen)
         VALUES (?1, ?2, ?3, datetime('now'), datetime('now'))
         ON CONFLICT(identifier, kind) DO UPDATE SET last_seen = datetime('now')",
        ("C:\\tools\\cargo.exe", "process", "cargo"),
    )
    .unwrap();

    let count: i64 = conn
        .query_row("SELECT COUNT(*) FROM seen_items", [], |row| row.get(0))
        .unwrap();
    assert_eq!(count, 1);
}

fn items(ids: &[&str]) -> Vec<(String, String)> {
    ids.iter().map(|i| (i.to_string(), format!("name of {i}"))).collect()
}

#[test]
fn bootstrap_baseline_is_empty_set() {
    let guard: HashSet<String> = HashSet::new();
    assert!(guard.is_empty());
    // With that empty baseline nothing is flagged as new.
    assert!(new_identifiers(&Vec::new(), &items(&["a", "b"])).is_empty());
}

#[test]
fn only_unseen_items_are_new() {
    let baseline = vec!["a".to_string(), "c".to_string()];
    assert_eq!(
        new_identifiers(&baseline, &items(&["a", "b", "c", "d"])),
        vec!["b".to_string(), "d".to_string()]
    );
    assert!(new_identifiers(&baseline, &items(&["a", "c"])).is_empty());
    assert!(new_identifiers(&baseline, &Vec::new()).is_empty());
}

#[test]
fn a_new_identifier_is_reported_once() {
    let baseline = vec!["a".to_string()];
    assert_eq!(
        new_identifiers(&baseline, &items(&["b", "a", "b", "c", "b"])),
        vec!["b".to_string(), "c".to_string()]
    );
}
