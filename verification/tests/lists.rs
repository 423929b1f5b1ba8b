use mpdview::item::{LibItem, LibKind};
use mpdview::list::{Library, LibState, Policy};

fn names(v: &[&str]) -> Vec<String> {
    v.iter().map(|s| s.to_string()).collect()
}

#[test]
fn state_default_and_accessors() {
    let st = LibState::default();
    assert_eq!(st.selected(), Some(0));
    assert_eq!(st.offset, 0);
}

#[test]
fn state_select_none_resets_offset() {
    let mut st = LibState::default();
    st.offset(7);
    assert_eq!(st.offset, 7);
    st.select(Some(3));
    assert_eq!(st.offset, 7);
    st.select(None);
    assert_eq!(st.selected(), None);
    assert_eq!(st.offset, 0);
}

#[test]
fn new_list_tags_and_cursor() {
    let lib = Library::new(names(&["a", "b", "c"]), LibKind::Artist);
    assert_eq!(lib.items.len(), 3);
    assert_eq!(lib.items[1].content, "b");
    assert!(lib.items[2].tag == LibKind::Artist);
    assert_eq!(lib.state.selected(), Some(0));
    assert!(lib.policy == Policy::Clamp);
}

#[test]
fn clamp_retreat_stays_at_top() {
    // A clamping list of length N: N retreats at index 0 leave it at 0.
    let n = 5;
    let mut lib = Library::new(names(&["a", "b", "c", "d", "e"]), LibKind::Artist);
    for _ in 0..n {
        lib.previous();
    }
    assert_eq!(lib.state.selected(), Some(0));
}

#[test]
fn clamp_advance_stays_at_bottom() {
    let n = 5;
    let mut lib = Library::new(names(&["a", "b", "c", "d", "e"]), LibKind::Artist);
    lib.state.select(Some(n - 1));
    for _ in 0..n {
        lib.next();
    }
    assert_eq!(lib.state.selected(), Some(n - 1));
}

#[test]
fn wrap_advance_full_cycle() {
    // A wrapping list of length N: N advances from 0 return to 0.
    let n = 4;
    let mut lib =
        Library::new_with_policy(names(&["a", "b", "c", "d"]), LibKind::Plain, Policy::Wrap);
    for k in 1..n {
        lib.next();
        assert_eq!(lib.state.selected(), Some(k));
    }
    lib.next();
    assert_eq!(lib.state.selected(), Some(0));
}

#[test]
fn wrap_retreat_full_cycle() {
    let n = 4;
    let mut lib =
        Library::new_with_policy(names(&["a", "b", "c", "d"]), LibKind::Plain, Policy::Wrap);
    lib.previous();
    assert_eq!(lib.state.selected(), Some(n - 1));
    for _ in 1..n {
        lib.previous();
    }
    assert_eq!(lib.state.selected(), Some(0));
}

#[test]
fn empty_list_operations_are_safe() {
    // Movement on a zero-length list keeps the selection cleared and
    // never indexes out of range.
    let mut lib = Library::new(Vec::new(), LibKind::Title);
    assert_eq!(lib.state.selected(), None);
    lib.next();
    assert_eq!(lib.state.selected(), None);
    lib.previous();
    assert_eq!(lib.state.selected(), None);
    lib.select_last();
    assert_eq!(lib.state.selected(), None);
    assert_eq!(lib.find_label(&"x".to_string()), None);
}

#[test]
fn empty_list_clears_stale_selection() {
    let mut lib = Library::new(Vec::new(), LibKind::Title);
    lib.state.select(Some(2));
    lib.select_last();
    assert_eq!(lib.state.selected(), None);
}

#[test]
fn select_last_clamps_out_of_range_cursor() {
    let mut lib = Library::new(names(&["a", "b", "c"]), LibKind::Title);
    lib.state.select(Some(9));
    lib.state.offset(2);
    lib.select_last();
    assert_eq!(lib.state.selected(), Some(2));
    assert_eq!(lib.state.offset, 0);
}

#[test]
fn select_last_keeps_valid_cursor() {
    let mut lib = Library::new(names(&["a", "b", "c"]), LibKind::Title);
    lib.state.select(Some(1));
    lib.state.offset(1);
    lib.select_last();
    assert_eq!(lib.state.selected(), Some(1));
    assert_eq!(lib.state.offset, 1);
}

#[test]
fn newlib_and_push() {
    let mut lib = Library::newlib(vec![LibItem::new("x".to_string(), LibKind::Album)]);
    lib.push(LibItem::new("y".to_string(), LibKind::Album));
    assert_eq!(lib.items.len(), 2);
    assert_eq!(lib.items[1].content, "y");
}

#[test]
fn home_menu_labels() {
    let home = Library::default();
    let labels: Vec<&str> = home.items.iter().map(|i| i.content.as_str()).collect();
    assert_eq!(labels, vec!["Playlists", "Artists", "Albums", "Titles"]);
    assert!(home.items.iter().all(|i| i.tag == LibKind::Home));
}

#[test]
fn find_label_first_match() {
    let lib = Library::new(names(&["a", "b", "b", "c"]), LibKind::Title);
    assert_eq!(lib.find_label(&"b".to_string()), Some(1));
    assert_eq!(lib.find_label(&"c".to_string()), Some(3));
    assert_eq!(lib.find_label(&"z".to_string()), None);
}

#[test]
fn duplicate_preserves_contents() {
    let mut lib = Library::new(names(&["a", "b"]), LibKind::Artist);
    lib.state.select(Some(1));
    let copy = lib.duplicate();
    assert_eq!(copy.items.len(), 2);
    assert_eq!(copy.items[0].content, "a");
    assert_eq!(copy.state.selected(), Some(1));
    assert!(copy.policy == Policy::Clamp);
}
