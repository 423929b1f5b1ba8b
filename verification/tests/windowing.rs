use mpdview::item::{LibItem, LibKind};
use mpdview::list::Library;
use mpdview::window::{compute_visible_range, item_rows, update_window};

fn items(v: &[&str]) -> Vec<LibItem> {
    v.iter()
        .map(|s| LibItem::new(s.to_string(), LibKind::Title))
        .collect()
}

#[test]
fn row_heights() {
    assert_eq!(item_rows(&"".to_string()), 1);
    assert_eq!(item_rows(&"one line".to_string()), 1);
    assert_eq!(item_rows(&"two\nlines".to_string()), 2);
    assert_eq!(item_rows(&"a\nb\nc".to_string()), 3);
}

#[test]
fn empty_list_window() {
    let v: Vec<LibItem> = Vec::new();
    assert_eq!(compute_visible_range(&v, Some(3), 7, 5), (0, 0));
}

#[test]
fn window_fills_from_offset() {
    // Selection already visible: the window stays at the offset and
    // grows greedily while rows fit.
    let v = items(&["a", "b", "c", "d", "e"]);
    assert_eq!(compute_visible_range(&v, Some(1), 0, 3), (0, 3));
    assert_eq!(compute_visible_range(&v, Some(3), 2, 3), (2, 5));
}

#[test]
fn window_contains_selection() {
    // Windower invariant on a concrete list: start <= selected < end and
    // the rows of [start, end) fit in the height.
    let v = items(&["one", "two\nlines", "three"]);
    let (start, end) = compute_visible_range(&v, Some(2), 0, 3);
    assert_eq!((start, end), (1, 3));
    let rows: usize = (start..end).map(|i| item_rows(&v[i].content)).sum();
    assert!(rows <= 3);
}

#[test]
fn window_scrolls_forward_minimally() {
    // Moving the selection one past the window shifts the start by just
    // one row: no jump back to the top.
    let v = items(&["a", "b", "c", "d", "e"]);
    let (s1, e1) = compute_visible_range(&v, Some(1), 0, 2);
    assert_eq!((s1, e1), (0, 2));
    let (s2, e2) = compute_visible_range(&v, Some(2), s1, 2);
    assert_eq!((s2, e2), (1, 3));
    let (s3, e3) = compute_visible_range(&v, Some(3), s2, 2);
    assert_eq!((s3, e3), (2, 4));
}

#[test]
fn window_scrolls_backward_to_selection() {
    // A selection above the window becomes its first row.
    let v = items(&["a", "b", "c", "d", "e"]);
    let (s, e) = compute_visible_range(&v, Some(0), 2, 2);
    assert_eq!((s, e), (0, 2));
}

#[test]
fn over_tall_item_degenerates() {
    // An item taller than the viewport is shown alone.
    let v = items(&["x", "a\nb\nc\nd", "y"]);
    let (s, e) = compute_visible_range(&v, Some(1), 0, 2);
    assert_eq!((s, e), (1, 2));
}

#[test]
fn offset_and_selection_clamped() {
    let v = items(&["a", "b", "c"]);
    // Offset and selection beyond the list are clamped to the last row.
    let (s, e) = compute_visible_range(&v, Some(9), 9, 2);
    assert!(s <= 2 && 2 < e && e <= 3);
    // No selection behaves as row 0.
    assert_eq!(compute_visible_range(&v, None, 0, 2), (0, 2));
}

#[test]
fn update_window_remembers_offset() {
    let mut lib = Library::new(
        vec!["a".to_string(), "b".to_string(), "c".to_string(), "d".to_string()],
        LibKind::Title,
    );
    lib.state.select(Some(2));
    let (s, e) = update_window(&mut lib, 2);
    assert_eq!((s, e), (1, 3));
    assert_eq!(lib.state.offset, 1);
    // A later render from the remembered offset keeps the same window.
    let (s2, e2) = update_window(&mut lib, 2);
    assert_eq!((s2, e2), (1, 3));
}

#[test]
fn multi_row_scroll_keeps_selection_visible() {
    let v = items(&["one", "two\nlines", "three", "four"]);
    // Heights 1,2,1,1 with 3 rows available from the top: rows 0..2 fit.
    assert_eq!(compute_visible_range(&v, Some(0), 0, 3), (0, 2));
    // Selecting row 2 pushes the window past the two-row item.
    let (s, e) = compute_visible_range(&v, Some(2), 0, 3);
    assert_eq!((s, e), (1, 3));
    // Selecting row 3 drops the two-row item from the window.
    let (s2, e2) = compute_visible_range(&v, Some(3), s, 3);
    assert_eq!((s2, e2), (2, 4));
}
