use easy_dictate::history::{texts_for_history, History, HistoryEntry, MAX_HISTORY_ENTRIES};

#[test]
fn entries_get_rising_ids_from_one() {
    let mut history = History::new();
    assert_eq!(history.len(), 0);
    let first = history.add_entry_at(10, "one".to_string(), None, None, None);
    let second = history.add_entry_at(
        20,
        "two".to_string(),
        Some("zwei".to_string()),
        Some("English".to_string()),
        Some("German".to_string()),
    );
    assert_eq!(first.id, 1);
    assert_eq!(first.timestamp, 10);
    assert_eq!(first.original_text, "one");
    assert_eq!(first.translated_text, None);
    assert_eq!(second.id, 2);
    assert_eq!(second.translated_text, Some("zwei".to_string()));
    assert_eq!(second.source_language, Some("English".to_string()));
    assert_eq!(second.target_language, Some("German".to_string()));
    assert_eq!(history.len(), 2);
}

#[test]
fn history_is_listed_newest_first() {
    let mut history = History::new();
    for text in ["a", "b", "c"] {
        history.add_entry_at(0, text.to_string(), None, None, None);
    }
    let listed: Vec<(u64, String)> = history
        .get_history()
        .into_iter()
        .map(|e| (e.id, e.original_text))
        .collect();
    assert_eq!(
        listed,
        vec![(3, "c".to_string()), (2, "b".to_string()), (1, "a".to_string())]
    );
}

#[test]
fn history_keeps_the_last_hundred() {
    let mut history = History::new();
    assert_eq!(MAX_HISTORY_ENTRIES, 100);
    for i in 0..130 {
        history.add_entry_at(i, format!("entry {}", i), None, None, None);
    }
    assert_eq!(history.len(), 100);
    let listed = history.get_history();
    assert_eq!(listed[0].id, 130);
    assert_eq!(listed[0].original_text, "entry 129");
    assert_eq!(listed[99].id, 31);
    assert_eq!(listed[99].original_text, "entry 30");
}

#[test]
fn delete_removes_by_id_only() {
    let mut history = History::new();
    for text in ["a", "b", "c"] {
        history.add_entry_at(0, text.to_string(), None, None, None);
    }
    assert!(!history.delete_history_entry(7));
    assert_eq!(history.len(), 3);
    assert!(history.delete_history_entry(2));
    let ids: Vec<u64> = history.get_history().iter().map(|e| e.id).collect();
    assert_eq!(ids, vec![3, 1]);
    assert!(!history.delete_history_entry(2));
    let next = history.add_entry_at(0, "d".to_string(), None, None, None);
    assert_eq!(next.id, 4);
}

#[test]
fn clear_empties_the_history_and_keeps_counting() {
    let mut history = History::new();
    history.add_entry_at(0, "a".to_string(), None, None, None);
    history.clear_history();
    assert_eq!(history.len(), 0);
    assert!(history.get_history().is_empty());
    let next = history.add_entry_at(0, "b".to_string(), None, None, None);
    assert_eq!(next.id, 2);
}

#[test]
fn new_entries_carry_the_current_time() {
    let entry = HistoryEntry::new(5, "now".to_string(), None, None, None);
    assert_eq!(entry.id, 5);
    assert_eq!(entry.original_text, "now");
    // later than 2020-01-01 and earlier than 2200-01-01, in milliseconds
    assert!(entry.timestamp > 1_577_836_800_000);
    assert!(entry.timestamp < 7_258_118_400_000);
    let mut history = History::new();
    let added = history.add_history_entry("x".to_string(), None, None, None);
    assert!(added.timestamp >= entry.timestamp);
    let copy = added.duplicate();
    assert_eq!(copy.id, added.id);
    assert_eq!(copy.timestamp, added.timestamp);
    assert_eq!(copy.original_text, "x");
}

#[test]
fn translation_is_kept_only_where_it_changed_the_text() {
    assert_eq!(
        texts_for_history(true, "hola".to_string(), "hello".to_string()),
        ("hola".to_string(), Some("hello".to_string()))
    );
    assert_eq!(
        texts_for_history(true, "hello".to_string(), "hello".to_string()),
        ("hello".to_string(), None)
    );
    assert_eq!(
        texts_for_history(false, "hola".to_string(), "hello".to_string()),
        ("hello".to_string(), None)
    );
}
