use typr::history::{add, decrypt, delete, encrypt, HistoryEntry, MAX_ENTRIES};

#[test]
fn test_roundtrip() {
    let data = b"hello history";
    let enc = encrypt(data).unwrap();
    let dec = decrypt(&enc).unwrap();
    assert_eq!(dec, data);
}

#[test]
fn add_puts_newest_first_with_growing_ids() {
    let mut entries: Vec<HistoryEntry> = Vec::new();
    add(&mut entries, "first entry", "groq", 1000);
    add(&mut entries, "second entry", "openrouter", 1000);
    assert_eq!(entries.len(), 2);
    assert_eq!(entries[0].text, "second entry");
    assert_eq!(entries[1].text, "first entry");
    assert_eq!(entries[1].id, 1000);
    assert_eq!(entries[0].id, 1001);
    assert_eq!(entries[0].timestamp_ms, 1000);
    assert_eq!(entries[0].engine, "openrouter");
    add(&mut entries, "third", "local", 5000);
    assert_eq!(entries[0].id, 5000);
}

#[test]
fn delete_removes_only_that_id() {
    let mut entries: Vec<HistoryEntry> = Vec::new();
    add(&mut entries, "a", "groq", 10);
    add(&mut entries, "b", "groq", 20);
    add(&mut entries, "c", "groq", 30);
    let id = entries[1].id;
    delete(&mut entries, id);
    assert_eq!(entries.len(), 2);
    assert_eq!(entries[0].text, "c");
    assert_eq!(entries[1].text, "a");
    delete(&mut entries, 12345);
    assert_eq!(entries.len(), 2);
}

#[test]
fn history_keeps_at_most_max_entries() {
    let mut entries: Vec<HistoryEntry> = Vec::new();
    for i in 0..(MAX_ENTRIES as u64 + 5) {
        add(&mut entries, "x", "local", i);
    }
    assert_eq!(entries.len(), MAX_ENTRIES);
    assert_eq!(entries[0].id, MAX_ENTRIES as u64 + 4);
    assert_eq!(entries[MAX_ENTRIES - 1].id, 5);
}

#[test]
fn delete_undoes_add() {
    let mut entries: Vec<HistoryEntry> = Vec::new();
    add(&mut entries, "a", "groq", 7);
    add(&mut entries, "b", "groq", 9);
    add(&mut entries, "new", "local", 3);
    let id = entries[0].id;
    assert_eq!(id, 10);
    delete(&mut entries, id);
    let texts: Vec<&str> = entries.iter().map(|e| e.text.as_str()).collect();
    assert_eq!(texts, vec!["b", "a"]);
}
