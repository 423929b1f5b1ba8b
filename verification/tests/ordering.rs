use mpdview::digits::to_decimal;
use mpdview::tracks::{parse_u32, sort_tracks, titles_from_search, TrackEntry};

fn entry(title: &str, track: Option<&str>) -> TrackEntry {
    TrackEntry { title: title.to_string(), track: track.map(|s| s.to_string()) }
}

#[test]
fn parse_plain_numbers() {
    assert_eq!(parse_u32("0"), Some(0));
    assert_eq!(parse_u32("12"), Some(12));
    assert_eq!(parse_u32("007"), Some(7));
    assert_eq!(parse_u32("4294967295"), Some(u32::MAX));
}

#[test]
fn parse_rejects_non_numbers() {
    assert_eq!(parse_u32(""), None);
    assert_eq!(parse_u32("12a"), None);
    assert_eq!(parse_u32("-1"), None);
    assert_eq!(parse_u32("1 2"), None);
    assert_eq!(parse_u32("4294967296"), None);
    assert_eq!(parse_u32("99999999999999999999"), None);
}

#[test]
fn sort_orders_by_track_number() {
    let sorted = sort_tracks(vec![
        entry("second", Some("2")),
        entry("tenth", Some("10")),
        entry("first", Some("1")),
    ]);
    let titles: Vec<&str> = sorted.iter().map(|e| e.title.as_str()).collect();
    assert_eq!(titles, vec!["first", "second", "tenth"]);
}

#[test]
fn sort_puts_keyless_tracks_first() {
    let sorted = sort_tracks(vec![
        entry("numbered", Some("3")),
        entry("untagged", None),
        entry("unparsable", Some("x")),
    ]);
    let titles: Vec<&str> = sorted.iter().map(|e| e.title.as_str()).collect();
    assert_eq!(titles, vec!["untagged", "unparsable", "numbered"]);
}

#[test]
fn sort_is_stable() {
    let sorted = sort_tracks(vec![
        entry("a", Some("1")),
        entry("b", Some("1")),
        entry("c", None),
        entry("d", None),
    ]);
    let titles: Vec<&str> = sorted.iter().map(|e| e.title.as_str()).collect();
    assert_eq!(titles, vec!["c", "d", "a", "b"]);
}

#[test]
fn titles_list_in_track_order() {
    let lib = titles_from_search(vec![
        entry("closer", Some("2")),
        entry("opener", Some("1")),
    ]);
    let titles: Vec<&str> = lib.items.iter().map(|i| i.content.as_str()).collect();
    assert_eq!(titles, vec!["opener", "closer"]);
    assert_eq!(lib.state.selected(), Some(0));
}

#[test]
fn titles_of_empty_search() {
    let lib = titles_from_search(Vec::new());
    assert_eq!(lib.items.len(), 0);
    assert_eq!(lib.state.selected(), None);
}

#[test]
fn decimal_rendering() {
    assert_eq!(to_decimal(0), "0");
    assert_eq!(to_decimal(7), "7");
    assert_eq!(to_decimal(42), "42");
    assert_eq!(to_decimal(1000), "1000");
    assert_eq!(to_decimal(90210), "90210");
}
