use spade_docker::record::{append_if_absent, log_image, Store};

fn s(x: &str) -> String {
    String::from(x)
}

#[test]
fn append_absent_adds_at_end() {
    let log = vec![s("aaa"), s("bbb")];
    let out = append_if_absent(&log, &s("ccc"));
    assert_eq!(out, vec![s("aaa"), s("bbb"), s("ccc")]);
}

#[test]
fn append_present_is_no_op() {
    let log = vec![s("aaa"), s("bbb")];
    let out = append_if_absent(&log, &s("aaa"));
    assert_eq!(out, vec![s("aaa"), s("bbb")]);
}

#[test]
fn append_twice_equals_append_once() {
    let log = vec![s("aaa"), s("bbb")];
    let once = append_if_absent(&log, &s("ccc"));
    let twice = append_if_absent(&once, &s("ccc"));
    assert_eq!(twice, once);
}

#[test]
fn append_on_empty_log() {
    let log: Vec<String> = vec![];
    let out = append_if_absent(&log, &s("abc"));
    assert_eq!(out, vec![s("abc")]);
}

#[test]
fn load_of_missing_file_is_empty() {
    let store = Store::new();
    assert_eq!(store.load(), Vec::<String>::new());
    assert!(store.content().is_none());
}

#[test]
fn replace_then_load_round_trips() {
    let mut store = Store::new();
    let log = vec![s("aaa"), s("bbb"), s("ccc")];
    store.replace(&log);
    assert_eq!(store.content(), Some(&s("aaa\nbbb\nccc")));
    assert_eq!(store.load(), log);
}

#[test]
fn round_trip_keeps_empty_elements() {
    let mut store = Store::new();
    let log = vec![s("aaa"), s(""), s("bbb")];
    store.replace(&log);
    assert_eq!(store.load(), log);
}

#[test]
fn replace_with_empty_log_loads_one_empty_line() {
    let mut store = Store::new();
    let log: Vec<String> = vec![];
    store.replace(&log);
    assert_eq!(store.content(), Some(&s("")));
    assert_eq!(store.load(), vec![s("")]);
}

#[test]
fn interrupted_replace_preserves_old_content() {
    let mut store = Store::from_content(Some(s("aaa\nbbb")));
    store.stage(s("ccc"));
    assert_eq!(store.content(), Some(&s("aaa\nbbb")));
    assert_eq!(store.load(), vec![s("aaa"), s("bbb")]);
    store.commit();
    assert_eq!(store.content(), Some(&s("ccc")));
    assert_eq!(store.load(), vec![s("ccc")]);
}

#[test]
fn log_image_records_once() {
    let mut store = Store::new();
    log_image(&mut store, &s("abc123"));
    assert_eq!(store.content(), Some(&s("abc123")));
    log_image(&mut store, &s("abc123"));
    assert_eq!(store.content(), Some(&s("abc123")));
    log_image(&mut store, &s("def456"));
    assert_eq!(store.content(), Some(&s("abc123\ndef456")));
}
