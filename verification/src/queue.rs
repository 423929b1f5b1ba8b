//! The queue reconciler: mirrors the authoritative, absolutely-indexed
//! remote play queue as a local display list. Entries already played are
//! trimmed from the head; the `drained` counter records how many, and is
//! the single place where local display indices are translated to remote
//! absolute indices.

use vstd::prelude::*;

use crate::item::{Decor, ItemModel, LibItem, LibKind};
use crate::list::{lib_wf, LibModel, Library, Policy};

verus! {

/// Once the remote play position passes this absolute index, each refresh
/// asks for the oldest remote entry to be deleted, bounding queue growth.
pub const RETENTION_THRESHOLD: usize = 20;

/// Mathematical model of the queue mirror.
pub ghost struct QueueModel {
    pub list: LibModel,
    pub drained: usize,
}

/// The local mirror of the remote queue: a wrapping display list plus the
/// count of entries trimmed from its head relative to the remote queue's
/// absolute numbering.
pub struct QueueMirror {
    pub list: Library,
    pub drained: usize,
}

impl View for QueueMirror {
    type V = QueueModel;

    open spec fn view(&self) -> QueueModel {
        QueueModel { list: self.list@, drained: self.drained }
    }
}

/// What `refresh` reports back: the local row to mark as now playing, if
/// any, and whether the caller should ask the remote to delete its oldest
/// entry (best-effort; a failure to delete is ignorable).
pub struct RefreshOutcome {
    pub highlight: Option<usize>,
    pub delete_oldest: bool,
}

/// A queue row: an undecorated item carrying the track title.
pub open spec fn queue_row(label: Seq<char>) -> ItemModel {
    ItemModel { label: label, decor: Decor::Normal, kind: LibKind::Plain }
}

impl QueueMirror {
    /// A mirror of a freshly fetched queue, nothing trimmed yet.
    pub fn from_snapshot(snapshot: Vec<String>) -> (r: QueueMirror)
        ensures
            r@.drained == 0,
            r@.list.items.len() == snapshot@.len(),
            forall|i: int|
                0 <= i < snapshot@.len() ==> r@.list.items[i] == queue_row(snapshot@[i]@),
            r@.list.selected == if snapshot@.len() == 0 { None::<usize> } else { Some(0usize) },
            r@.list.offset == 0,
            r@.list.policy == Policy::Wrap,
            lib_wf(r@.list),
    {
        QueueMirror {
            list: Library::new_with_policy(snapshot, LibKind::Plain, Policy::Wrap),
            drained: 0,
        }
    }

    /// Rebuild the mirror from the latest remote snapshot.
    ///
    /// Entries whose absolute position is below the remote play position
    /// are trimmed from the head and counted in `drained`; the play
    /// position translated into local coordinates is returned as the row
    /// to highlight when it lands inside the list; and once the play
    /// position passes the retention threshold, the outcome asks for one
    /// deletion of the oldest remote entry. The highlight selection kept
    /// from before the refresh is clamped to the new length so the mirror
    /// stays well-formed even when the queue shrank or emptied.
    pub fn refresh(&mut self, snapshot: Vec<String>, remote_current: usize) -> (r: RefreshOutcome)
        ensures
            final(self)@.drained == if remote_current <= snapshot@.len() {
                remote_current as int
            } else {
                snapshot@.len() as int
            },
            final(self)@.list.items.len() == snapshot@.len() - final(self)@.drained,
            forall|i: int|
                0 <= i < final(self)@.list.items.len() ==> final(self)@.list.items[i] == queue_row(
                    snapshot@[i + final(self)@.drained]@,
                ),
            final(self)@.list.policy == old(self)@.list.policy,
            final(self)@.list.selected == ({
                let n = snapshot@.len() - final(self)@.drained;
                if n == 0 {
                    None::<usize>
                } else {
                    match old(self)@.list.selected {
                        Some(i) => if i >= n { Some((n - 1) as usize) } else { Some(i) },
                        None => None::<usize>,
                    }
                }
            }),
            final(self)@.list.offset == if final(self)@.list.selected == old(
                self,
            )@.list.selected {
                old(self)@.list.offset
            } else {
                0usize
            },
            lib_wf(final(self)@.list),
            r.highlight == ({
                let n = snapshot@.len() - final(self)@.drained;
                if remote_current - final(self)@.drained < n {
                    Some((remote_current - final(self)@.drained) as usize)
                } else {
                    None::<usize>
                }
            }),
            r.delete_oldest == (remote_current > RETENTION_THRESHOLD),
    {
        let total = snapshot.len();
        let drained = if remote_current < total {
            remote_current
        } else {
            total
        };
        let mut items: Vec<LibItem> = Vec::new();
        let mut k: usize = drained;
        while k < total
            invariant
                drained <= k <= total,
                total == snapshot@.len(),
                items@.len() == k - drained,
                forall|i: int|
                    0 <= i < items@.len() ==> items@[i]@ == queue_row(snapshot@[i + drained]@),
            decreases total - k,
        {
            let item = LibItem::new(snapshot[k].clone(), LibKind::Plain);
            items.push(item);
            k = k + 1;
        }
        self.list.items = items;
        self.list.select_last();
        self.drained = drained;
        let local = remote_current - drained;
        let highlight = if local < total - drained {
            Some(local)
        } else {
            None
        };
        RefreshOutcome { highlight, delete_oldest: remote_current > RETENTION_THRESHOLD }
    }

    /// Translate a local display row into the remote queue's absolute
    /// numbering. No other component may do this arithmetic itself.
    pub fn remote_index(&self, local: usize) -> (r: usize)
        requires
            local + self@.drained <= usize::MAX,
        ensures
            r == local + self@.drained,
    {
        local + self.drained
    }

    /// As `remote_index`, for remote commands whose numbering is
    /// one-based.
    pub fn remote_index_one_based(&self, local: usize) -> (r: usize)
        requires
            local + self@.drained + 1 <= usize::MAX,
        ensures
            r == local + self@.drained + 1,
    {
        local + self.drained + 1
    }
}

} // verus!
