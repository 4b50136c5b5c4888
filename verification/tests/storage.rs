use command_bridge::storage::Storage;

#[test]
fn write_then_read_returns_exactly_the_content() {
    let mut store = Storage::new();
    store.write("/tmp/a.txt".to_string(), "hello".to_string());
    let got = store.read(&"/tmp/a.txt".to_string());
    assert_eq!(got, Some("hello".to_string()));
}

#[test]
fn round_trip_preserves_empty_content() {
    let mut store = Storage::new();
    store.write("/tmp/empty.txt".to_string(), String::new());
    assert_eq!(store.read(&"/tmp/empty.txt".to_string()), Some(String::new()));
}

#[test]
fn round_trip_preserves_multi_line_content() {
    let text = "first line\nsecond line\n\nfourth line\n".to_string();
    let mut store = Storage::new();
    store.write("/tmp/lines.md".to_string(), text.clone());
    assert_eq!(store.read(&"/tmp/lines.md".to_string()), Some(text));
}

#[test]
fn overwrite_returns_the_latest_content() {
    let mut store = Storage::new();
    store.write("/tmp/a.txt".to_string(), "old".to_string());
    store.write("/tmp/a.txt".to_string(), "new".to_string());
    assert_eq!(store.read(&"/tmp/a.txt".to_string()), Some("new".to_string()));
}

#[test]
fn reading_a_path_never_written_yields_nothing() {
    let store = Storage::new();
    assert_eq!(store.read(&"/tmp/missing.txt".to_string()), None);
}

#[test]
fn write_leaves_other_paths_untouched() {
    let mut store = Storage::new();
    store.write("/tmp/b.txt".to_string(), "b content".to_string());
    store.write("/tmp/a.txt".to_string(), "a content".to_string());
    // The write to a.txt disturbs neither b.txt nor an absent path.
    assert_eq!(store.read(&"/tmp/b.txt".to_string()), Some("b content".to_string()));
    assert_eq!(store.read(&"/tmp/missing.txt".to_string()), None);
}

#[test]
fn interleaved_commands_on_distinct_paths_stay_unmixed() {
    let mut store = Storage::new();
    store.write("/tmp/a.txt".to_string(), "content for a".to_string());
    let read_b_early = store.read(&"/tmp/b.txt".to_string());
    store.write("/tmp/b.txt".to_string(), "content for b".to_string());
    let read_a = store.read(&"/tmp/a.txt".to_string());
    let read_b = store.read(&"/tmp/b.txt".to_string());
    assert_eq!(read_b_early, None);
    assert_eq!(read_a, Some("content for a".to_string()));
    assert_eq!(read_b, Some("content for b".to_string()));
}
