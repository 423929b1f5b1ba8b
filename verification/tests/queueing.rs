use mpdview::item::LibKind;
use mpdview::list::Policy;
use mpdview::queue::{QueueMirror, RETENTION_THRESHOLD};

fn titles(v: &[&str]) -> Vec<String> {
    v.iter().map(|s| s.to_string()).collect()
}

#[test]
fn snapshot_mirror() {
    let q = QueueMirror::from_snapshot(titles(&["t0", "t1", "t2"]));
    assert_eq!(q.drained, 0);
    assert_eq!(q.list.items.len(), 3);
    assert_eq!(q.list.items[0].content, "t0");
    assert!(q.list.items[0].tag == LibKind::Plain);
    assert!(q.list.policy == Policy::Wrap);
}

#[test]
fn refresh_translates_remote_position() {
    // Remote queue of 5 tracks, play position 2: two entries drain, the
    // playing row lands at local index 0, and deleting local row 0 goes
    // to absolute index 2 (local + drained).
    let mut q = QueueMirror::from_snapshot(Vec::new());
    let out = q.refresh(titles(&["t0", "t1", "t2", "t3", "t4"]), 2);
    assert_eq!(q.drained, 2);
    assert_eq!(q.list.items.len(), 3);
    assert_eq!(q.list.items[0].content, "t2");
    assert_eq!(out.highlight, Some(0));
    assert!(!out.delete_oldest);
    assert_eq!(q.remote_index(0), 2);
    assert_eq!(q.remote_index_one_based(0), 3);
}

#[test]
fn refresh_with_position_zero_drains_nothing() {
    let mut q = QueueMirror::from_snapshot(Vec::new());
    let out = q.refresh(titles(&["t0", "t1"]), 0);
    assert_eq!(q.drained, 0);
    assert_eq!(q.list.items.len(), 2);
    assert_eq!(out.highlight, Some(0));
    assert_eq!(q.remote_index(1), 1);
}

#[test]
fn refresh_past_end_highlights_nothing() {
    let mut q = QueueMirror::from_snapshot(Vec::new());
    let out = q.refresh(titles(&["t0", "t1"]), 5);
    assert_eq!(q.drained, 2);
    assert_eq!(q.list.items.len(), 0);
    assert_eq!(out.highlight, None);
    assert_eq!(q.list.state.selected(), None);
}

#[test]
fn retention_asks_one_delete_per_refresh() {
    // Past the retention threshold each refresh asks for exactly one
    // deletion of the oldest remote entry.
    let snapshot: Vec<String> = (0..30).map(|i| format!("t{}", i)).collect();
    let mut q = QueueMirror::from_snapshot(Vec::new());
    let out = q.refresh(snapshot.clone(), 21);
    assert!(out.delete_oldest);
    let again = q.refresh(snapshot.clone(), 21);
    assert!(again.delete_oldest);
    // At the threshold itself nothing is deleted.
    let at = q.refresh(snapshot.clone(), RETENTION_THRESHOLD);
    assert!(!at.delete_oldest);
    let below = q.refresh(snapshot, 3);
    assert!(!below.delete_oldest);
}

#[test]
fn refresh_clamps_stale_selection() {
    let mut q = QueueMirror::from_snapshot(titles(&["a", "b", "c", "d", "e"]));
    q.list.state.select(Some(4));
    q.refresh(titles(&["a", "b", "c", "d", "e"]), 3);
    // Two rows remain; the stale cursor is clamped to the last row.
    assert_eq!(q.list.items.len(), 2);
    assert_eq!(q.list.state.selected(), Some(1));
    assert_eq!(q.list.state.offset, 0);
}
