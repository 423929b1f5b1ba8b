//! Selectable lists: an ordered sequence of items plus a single-cursor
//! selection, with a per-instance boundary policy (clamp or wrap) for the
//! movement primitives.

use vstd::prelude::*;

use crate::item::{Decor, ItemModel, LibItem, LibKind};

verus! {

/// What `next`/`previous` do at the ends of the list.
#[derive(Clone, Copy, PartialEq, Eq, Structural, Debug)]
pub enum Policy {
    /// Stop at the first/last index.
    Clamp,
    /// Wrap around to the opposite end.
    Wrap,
}

/// Cursor state of a list: the highlighted row, if any, and the scroll
/// offset remembered for the viewport windower. `selected == None` means
/// no row is highlighted; the offset is owned by the windower and is only
/// reset here when the selection is cleared.
#[derive(Clone, Copy)]
pub struct LibState {
    pub offset: usize,
    pub selected: Option<usize>,
}

impl Default for LibState {
    fn default() -> (r: LibState)
        ensures
            r.offset == 0,
            r.selected == Some(0usize),
    {
        LibState { offset: 0, selected: Some(0) }
    }
}

impl LibState {
    pub fn selected(&self) -> (r: Option<usize>)
        ensures
            r == self.selected,
    {
        self.selected
    }

    pub fn select(&mut self, index: Option<usize>)
        ensures
            final(self).selected == index,
            final(self).offset == if index is None { 0usize } else { old(self).offset },
    {
        self.selected = index;
        if index.is_none() {
            self.offset = 0;
        }
    }

    pub fn offset(&mut self, index: usize)
        ensures
            final(self).offset == index,
            final(self).selected == old(self).selected,
    {
        self.offset = index;
    }
}

/// Mathematical model of a list: the item models in order, the cursor,
/// and the boundary policy.
pub ghost struct LibModel {
    pub items: Seq<ItemModel>,
    pub selected: Option<usize>,
    pub offset: usize,
    pub policy: Policy,
}

/// A browsable list of items with its cursor and boundary policy.
pub struct Library {
    pub items: Vec<LibItem>,
    pub state: LibState,
    pub policy: Policy,
}

impl View for Library {
    type V = LibModel;

    open spec fn view(&self) -> LibModel {
        LibModel {
            items: self.items@.map(|i: int, it: LibItem| it@),
            selected: self.state.selected,
            offset: self.state.offset,
            policy: self.policy,
        }
    }
}

/// Well-formedness of a list: a highlighted row is a valid index, so an
/// empty list never has one. Every constructor establishes this and every
/// operation preserves it; it is what keeps list movement in bounds even
/// while lists are rebuilt and can transiently be empty.
pub open spec fn lib_wf(m: LibModel) -> bool {
    match m.selected {
        Some(i) => i < m.items.len(),
        None => true,
    }
}

/// Selection after one `next` step: `None` on an empty list, else one
/// forward from the current row, clamped or wrapped at the last index.
pub open spec fn advance_sel(sel: Option<usize>, len: usize, policy: Policy) -> Option<usize> {
    if len == 0 {
        None
    } else {
        match sel {
            None => Some(0usize),
            Some(i) => if i + 1 < len {
                Some((i + 1) as usize)
            } else {
                match policy {
                    Policy::Clamp => Some((len - 1) as usize),
                    Policy::Wrap => Some(0usize),
                }
            },
        }
    }
}

/// Selection after one `previous` step: `None` on an empty list, else one
/// back from the current row, clamped or wrapped at index 0.
pub open spec fn retreat_sel(sel: Option<usize>, len: usize, policy: Policy) -> Option<usize> {
    if len == 0 {
        None
    } else {
        match sel {
            None => Some(0usize),
            Some(i) => if i == 0 {
                match policy {
                    Policy::Clamp => Some(0usize),
                    Policy::Wrap => Some((len - 1) as usize),
                }
            } else {
                Some((i - 1) as usize)
            },
        }
    }
}

/// The fixed top-level menu: one clamping entry per browsable category,
/// cursor at the top.
pub open spec fn is_home_model(m: LibModel) -> bool {
    &&& m.items.len() == 4
    &&& m.items[0] == (ItemModel { label: "Playlists"@, decor: Decor::Normal, kind: LibKind::Home })
    &&& m.items[1] == (ItemModel { label: "Artists"@, decor: Decor::Normal, kind: LibKind::Home })
    &&& m.items[2] == (ItemModel { label: "Albums"@, decor: Decor::Normal, kind: LibKind::Home })
    &&& m.items[3] == (ItemModel { label: "Titles"@, decor: Decor::Normal, kind: LibKind::Home })
    &&& m.selected == Some(0usize)
    &&& m.offset == 0
    &&& m.policy == Policy::Clamp
}

impl Default for Library {
    /// The home menu shown when the browser starts or fully unwinds.
    fn default() -> (r: Library)
        ensures
            is_home_model(r@),
            lib_wf(r@),
    {
        let mut items: Vec<LibItem> = Vec::new();
        items.push(LibItem::new("Playlists".to_owned(), LibKind::Home));
        items.push(LibItem::new("Artists".to_owned(), LibKind::Home));
        items.push(LibItem::new("Albums".to_owned(), LibKind::Home));
        items.push(LibItem::new("Titles".to_owned(), LibKind::Home));
        Library {
            items,
            state: LibState { offset: 0, selected: Some(0) },
            policy: Policy::Clamp,
        }
    }
}

/// Selection after `k` successive `next` steps.
pub open spec fn advance_iter(sel: Option<usize>, len: usize, policy: Policy, k: nat) -> Option<
    usize,
>
    decreases k,
{
    if k == 0 {
        sel
    } else {
        advance_sel(advance_iter(sel, len, policy, (k - 1) as nat), len, policy)
    }
}

/// Selection after `k` successive `previous` steps.
pub open spec fn retreat_iter(sel: Option<usize>, len: usize, policy: Policy, k: nat) -> Option<
    usize,
>
    decreases k,
{
    if k == 0 {
        sel
    } else {
        retreat_sel(retreat_iter(sel, len, policy, (k - 1) as nat), len, policy)
    }
}

/// On a clamping list, `previous` at index 0 is a no-op: any number of
/// retreat steps from the top leaves the selection at 0.
pub proof fn lemma_clamp_retreat_floor(len: usize, k: nat)
    requires
        0 < len,
    ensures
        retreat_iter(Some(0usize), len, Policy::Clamp, k) == Some(0usize),
    decreases k,
{
    if k > 0 {
        lemma_clamp_retreat_floor(len, (k - 1) as nat);
    }
}

/// On a clamping list, `next` at the last index is a no-op: any number of
/// advance steps from the bottom leaves the selection at the last index.
pub proof fn lemma_clamp_advance_ceiling(len: usize, k: nat)
    requires
        0 < len,
    ensures
        advance_iter(Some((len - 1) as usize), len, Policy::Clamp, k) == Some((len - 1) as usize),
    decreases k,
{
    if k > 0 {
        lemma_clamp_advance_ceiling(len, (k - 1) as nat);
    }
}

/// On a wrapping list of length `len`, `k <= len` advance steps from the
/// top select index `k`, wrapping back to 0 at `k == len`: a full cycle
/// returns to the start.
pub proof fn lemma_wrap_advance_cycle(len: usize, k: nat)
    requires
        0 < len,
        k <= len,
    ensures
        advance_iter(Some(0usize), len, Policy::Wrap, k) == if k < len {
            Some(k as usize)
        } else {
            Some(0usize)
        },
    decreases k,
{
    if k > 0 {
        lemma_wrap_advance_cycle(len, (k - 1) as nat);
    }
}

/// On a wrapping list of length `len`, `k` retreat steps from the top
/// select index `len - k` (for `0 < k <= len`): a full cycle returns to
/// the start.
pub proof fn lemma_wrap_retreat_cycle(len: usize, k: nat)
    requires
        0 < len,
        k <= len,
    ensures
        retreat_iter(Some(0usize), len, Policy::Wrap, k) == if k == 0 {
            Some(0usize)
        } else {
            Some((len - k) as usize)
        },
    decreases k,
{
    if k > 0 {
        lemma_wrap_retreat_cycle(len, (k - 1) as nat);
    }
}

/// On a zero-length list every movement step leaves the selection `None`,
/// whatever the policy: together with well-formedness this is the
/// empty-list safety of the movement operations.
pub proof fn lemma_empty_list_steps(sel: Option<usize>, policy: Policy, k: nat)
    ensures
        advance_iter(None, 0, policy, k) is None,
        retreat_iter(None, 0, policy, k) is None,
        advance_sel(sel, 0, policy) is None,
        retreat_sel(sel, 0, policy) is None,
    decreases k,
{
    if k > 0 {
        lemma_empty_list_steps(sel, policy, (k - 1) as nat);
    }
}

impl Library {
    /// A list over `items`, every entry tagged `kind`, cursor at the top.
    /// The boundary policy is clamping, as for the active browse list.
    pub fn new(items: Vec<String>, kind: LibKind) -> (r: Library)
        ensures
            r@.items.len() == items@.len(),
            forall|i: int| 0 <= i < items@.len() ==> r@.items[i] == (ItemModel {
                label: items@[i]@,
                decor: Decor::Normal,
                kind: kind,
            }),
            r@.selected == if items@.len() == 0 { None::<usize> } else { Some(0usize) },
            r@.offset == 0,
            r@.policy == Policy::Clamp,
            lib_wf(r@),
    {
        Library::new_with_policy(items, kind, Policy::Clamp)
    }

    /// As `new`, with the boundary policy chosen by the caller.
    pub fn new_with_policy(items: Vec<String>, kind: LibKind, policy: Policy) -> (r: Library)
        ensures
            r@.items.len() == items@.len(),
            forall|i: int| 0 <= i < items@.len() ==> r@.items[i] == (ItemModel {
                label: items@[i]@,
                decor: Decor::Normal,
                kind: kind,
            }),
            r@.selected == if items@.len() == 0 { None::<usize> } else { Some(0usize) },
            r@.offset == 0,
            r@.policy == policy,
            lib_wf(r@),
    {
        let mut out: Vec<LibItem> = Vec::new();
        let mut k: usize = 0;
        while k < items.len()
            invariant
                k <= items@.len(),
                out@.len() == k,
                forall|i: int| 0 <= i < k ==> out@[i]@ == (ItemModel {
                    label: items@[i]@,
                    decor: Decor::Normal,
                    kind: kind,
                }),
            decreases items@.len() - k,
        {
            let item = LibItem::new(items[k].clone(), kind);
            out.push(item);
            k = k + 1;
        }
        let selected: Option<usize> = if out.len() == 0 { None } else { Some(0) };
        Library {
            items: out,
            state: LibState { offset: 0, selected },
            policy,
        }
    }

    /// A clamping list over already-built items, cursor at the top.
    pub fn newlib(items: Vec<LibItem>) -> (r: Library)
        ensures
            r@.items == items@.map(|i: int, it: LibItem| it@),
            r@.selected == if items@.len() == 0 { None::<usize> } else { Some(0usize) },
            r@.offset == 0,
            r@.policy == Policy::Clamp,
            lib_wf(r@),
    {
        let selected: Option<usize> = if items.len() == 0 { None } else { Some(0) };
        Library {
            items,
            state: LibState { offset: 0, selected },
            policy: Policy::Clamp,
        }
    }

    pub fn push(&mut self, item: LibItem)
        ensures
            final(self)@.items == old(self)@.items.push(item@),
            final(self)@.selected == old(self)@.selected,
            final(self)@.offset == old(self)@.offset,
            final(self)@.policy == old(self)@.policy,
            lib_wf(old(self)@) ==> lib_wf(final(self)@),
    {
        self.items.push(item);
        proof {
            assert(self@.items =~= old(self)@.items.push(item@));
        }
    }

    /// A deep copy; the model is preserved exactly.
    pub fn duplicate(&self) -> (r: Library)
        ensures
            r@ == self@,
    {
        let mut out: Vec<LibItem> = Vec::new();
        let mut k: usize = 0;
        while k < self.items.len()
            invariant
                k <= self.items@.len(),
                out@.len() == k,
                forall|i: int| 0 <= i < k ==> out@[i]@ == self.items@[i]@,
            decreases self.items@.len() - k,
        {
            let item = self.items[k].duplicate();
            out.push(item);
            k = k + 1;
        }
        let r = Library { items: out, state: self.state, policy: self.policy };
        proof {
            assert(r@.items =~= self@.items);
        }
        r
    }

    /// Move the highlight one row down (clamping or wrapping at the end,
    /// by the list's policy). On an empty list the selection stays `None`.
    pub fn next(&mut self)
        requires
            lib_wf(old(self)@),
        ensures
            final(self)@.items == old(self)@.items,
            final(self)@.policy == old(self)@.policy,
            final(self)@.offset == old(self)@.offset,
            final(self)@.selected == advance_sel(
                old(self)@.selected,
                old(self)@.items.len() as usize,
                old(self)@.policy,
            ),
            lib_wf(final(self)@),
    {
        if self.items.len() == 0 {
            return;
        }
        let last = self.items.len() - 1;
        let i = match self.state.selected() {
            Some(i) => {
                if i >= last {
                    match self.policy {
                        Policy::Clamp => last,
                        Policy::Wrap => 0,
                    }
                } else {
                    i + 1
                }
            },
            None => 0,
        };
        self.state.select(Some(i));
    }

    /// Move the highlight one row up (clamping or wrapping at index 0, by
    /// the list's policy). On an empty list the selection stays `None`.
    pub fn previous(&mut self)
        requires
            lib_wf(old(self)@),
        ensures
            final(self)@.items == old(self)@.items,
            final(self)@.policy == old(self)@.policy,
            final(self)@.offset == old(self)@.offset,
            final(self)@.selected == retreat_sel(
                old(self)@.selected,
                old(self)@.items.len() as usize,
                old(self)@.policy,
            ),
            lib_wf(final(self)@),
    {
        if self.items.len() == 0 {
            return;
        }
        let i = match self.state.selected() {
            Some(i) => {
                if i == 0 {
                    match self.policy {
                        Policy::Clamp => 0,
                        Policy::Wrap => self.items.len() - 1,
                    }
                } else {
                    i - 1
                }
            },
            None => 0,
        };
        self.state.select(Some(i));
    }

    /// The first row whose label equals `title`, if any: the row the
    /// browse tab marks as now playing.
    pub fn find_label(&self, title: &String) -> (r: Option<usize>)
        ensures
            match r {
                Some(i) => {
                    &&& i < self@.items.len()
                    &&& self@.items[i as int].label == title@
                    &&& forall|j: int| 0 <= j < i ==> #[trigger] self@.items[j].label != title@
                },
                None => forall|j: int|
                    0 <= j < self@.items.len() ==> #[trigger] self@.items[j].label != title@,
            },
    {
        let mut k: usize = 0;
        while k < self.items.len()
            invariant
                k <= self.items@.len(),
                forall|j: int| 0 <= j < k ==> #[trigger] self@.items[j].label != title@,
            decreases self.items@.len() - k,
        {
            if self.items[k].content == *title {
                return Some(k);
            }
            k = k + 1;
        }
        None
    }

    /// Repair the cursor after the list shrank: an out-of-range highlight
    /// is clamped to the last valid row and the scroll offset reset; on an
    /// empty list the highlight is cleared. Establishes well-formedness
    /// whatever state the list was in.
    pub fn select_last(&mut self)
        ensures
            final(self)@.items == old(self)@.items,
            final(self)@.policy == old(self)@.policy,
            final(self)@.selected == (if old(self)@.items.len() == 0 {
                None::<usize>
            } else {
                match old(self)@.selected {
                    Some(i) => if i >= old(self)@.items.len() {
                        Some((old(self)@.items.len() - 1) as usize)
                    } else {
                        Some(i)
                    },
                    None => None::<usize>,
                }
            }),
            final(self)@.offset == (if final(self)@.selected == old(self)@.selected {
                old(self)@.offset
            } else {
                0usize
            }),
            lib_wf(final(self)@),
    {
        let len = self.items.len();
        if len == 0 {
            match self.state.selected() {
                Some(_) => self.state.select(None),
                None => {},
            }
        } else {
            match self.state.selected() {
                Some(i) => {
                    if i >= len {
                        self.state.select(Some(len - 1));
                        self.state.offset(0);
                    }
                },
                None => {},
            }
        }
    }
}

} // verus!
