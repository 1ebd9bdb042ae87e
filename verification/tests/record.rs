use redis_microsvc::record::{parse_record, split_fields};
use redis_microsvc::FeedItem;

fn item(title: &str, body: &str, time: &str) -> FeedItem {
    FeedItem { title: title.to_string(), body: body.to_string(), time: time.to_string() }
}

#[test]
fn split_fields_follows_str_split() {
    for s in ["", "a", "🤔", "a🤔", "🤔b", "a🤔b🤔c", "a🤔🤔c", "é🤔ü"] {
        let expected: Vec<String> = s.split('🤔').map(|p| p.to_string()).collect();
        assert_eq!(split_fields(s), expected, "{}", s);
    }
}

#[test]
fn parse_record_needs_three_fields() {
    assert_eq!(
        parse_record("one🤔two🤔three"),
        Some(("one".to_string(), "two".to_string(), "three".to_string()))
    );
    assert_eq!(parse_record("🤔🤔"), Some((String::new(), String::new(), String::new())));
    assert_eq!(parse_record("one🤔two"), None);
    assert_eq!(parse_record("a🤔b🤔c🤔d"), None);
    assert_eq!(parse_record(""), None);
}

#[test]
fn record_roundtrip() {
    let it = item("title", "body text", "2024-01-02 03:04:05 +01:00");
    let record = it.to_record();
    assert_eq!(record, "title🤔body text🤔2024-01-02 03:04:05 +01:00");
    let (t, b, n) = parse_record(&record).unwrap();
    assert_eq!(item(&t, &b, &n), it);
    assert_eq!(parse_record(&item("a🤔", "b", "c").to_record()), None);
}

#[test]
fn feed_items_compare_by_fields() {
    assert!(item("a", "b", "c") == item("a", "b", "c"));
    assert!(item("a", "b", "c") != item("a", "b", "d"));
    assert!(item("a", "b", "c") != item("x", "b", "c"));
    assert!(item("a", "b", "c") != item("a", "y", "c"));
}
