use nanowhisper::text::PathStyle;
use nanowhisper::commands::{clear_history, delete_history_entry, enigo_setup, get_history, report};
use nanowhisper::history::{
    clear_entries_sql, delete_entry_sql, entries_from_rows, insert_entry_sql, inserted_entry,
    schema_sql, select_entries_sql, HistoryError, HistoryManager,
};

#[test]
fn history_round_trip() {
    let dir = "/tmp";
    let m = HistoryManager::new(dir, PathStyle::Unix).expect("open history");
    assert_eq!(m.db_path(), "/tmp/history.db");
    clear_history(&m).unwrap();
    assert!(get_history(&m).unwrap().is_empty());

    let a = m.add_entry("hello", "whisper-1", Some(1500)).unwrap();
    assert_eq!(a.text, "hello");
    assert_eq!(a.model, "whisper-1");
    assert_eq!(a.duration_ms, Some(1500));
    assert!(a.timestamp > 1_600_000_000);
    let b = m.add_entry("world", "gpt-4o-transcribe", None).unwrap();
    assert!(b.id > a.id);

    let all = get_history(&m).unwrap();
    assert_eq!(all.len(), 2);
    assert!(all.windows(2).all(|w| w[0].timestamp >= w[1].timestamp));
    assert!(all.iter().any(|e| e.id == a.id && e.text == "hello" && e.model == "whisper-1" && e.timestamp == a.timestamp && e.duration_ms == Some(1500)));
    assert!(all.iter().any(|e| e.id == b.id && e.model == "gpt-4o-transcribe" && e.duration_ms.is_none()));

    delete_history_entry(&m, a.id).unwrap();
    let rest = get_history(&m).unwrap();
    assert_eq!(rest.len(), 1);
    assert_eq!(rest[0].id, b.id);

    delete_history_entry(&m, a.id).unwrap();
    assert_eq!(get_history(&m).unwrap().len(), 1);

    // Reopening keeps the stored rows.
    let again = HistoryManager::new(dir, PathStyle::Unix).unwrap();
    assert_eq!(again.get_entries().unwrap().len(), 1);

    clear_history(&m).unwrap();
    assert!(m.get_entries().unwrap().is_empty());
    clear_history(&m).unwrap();
    let c = m.add_entry("after clear", "m", None).unwrap();
    assert!(c.id > b.id);
    clear_history(&m).unwrap();
}

#[test]
fn opening_in_missing_directory_fails_with_message() {
    let r = HistoryManager::new("/nonexistent-dir-for-history/sub", PathStyle::Unix);
    let msg = report(r.map(|_| ())).unwrap_err();
    assert!(!msg.is_empty());
}

#[test]
fn clock_error_message() {
    assert_eq!(HistoryError::ClockBeforeEpoch.message(), "system time before Unix epoch");
    assert_eq!(
        report::<()>(Err(HistoryError::ClockBeforeEpoch)).unwrap_err(),
        "system time before Unix epoch"
    );
}

#[test]
fn rows_become_entries_in_order() {
    let rows = vec![
        (7, "b".to_string(), "m2".to_string(), 200, None),
        (3, "a".to_string(), "m1".to_string(), 100, Some(42)),
    ];
    let v = entries_from_rows(&rows);
    assert_eq!(v.len(), 2);
    assert_eq!((v[0].id, v[0].text.as_str(), v[0].model.as_str(), v[0].timestamp, v[0].duration_ms), (7, "b", "m2", 200, None));
    assert_eq!((v[1].id, v[1].text.as_str(), v[1].model.as_str(), v[1].timestamp, v[1].duration_ms), (3, "a", "m1", 100, Some(42)));
    assert!(entries_from_rows(&Vec::new()).is_empty());
}

#[test]
fn inserted_entry_carries_rowid_and_clock() {
    let e = inserted_entry(9, "t", "m", 1_700_000_000, Some(5));
    assert_eq!((e.id, e.text.as_str(), e.model.as_str(), e.timestamp, e.duration_ms), (9, "t", "m", 1_700_000_000, Some(5)));
}

#[test]
fn statements() {
    assert!(schema_sql().starts_with("CREATE TABLE IF NOT EXISTS transcriptions ("));
    assert!(schema_sql().contains("id INTEGER PRIMARY KEY AUTOINCREMENT"));
    assert_eq!(select_entries_sql(), "SELECT id, text, model, timestamp, duration_ms FROM transcriptions ORDER BY timestamp DESC");
    assert_eq!(insert_entry_sql(), "INSERT INTO transcriptions (text, model, timestamp, duration_ms) VALUES (?1, ?2, ?3, ?4)");
    assert_eq!(delete_entry_sql(), "DELETE FROM transcriptions WHERE id = ?1");
    assert_eq!(clear_entries_sql(), "DELETE FROM transcriptions");
}

#[test]
fn enigo_setup_decisions() {
    assert_eq!(enigo_setup(false, false).unwrap_err(), "Accessibility not granted");
    assert_eq!(enigo_setup(false, true).unwrap_err(), "Accessibility not granted");
    assert_eq!(enigo_setup(true, false), Ok(true));
    assert_eq!(enigo_setup(true, true), Ok(false));
}
