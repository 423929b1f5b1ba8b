//! The viewport windower: given a list, the selected row, the remembered
//! scroll offset and the available height in display rows, compute the
//! contiguous range of items to render so the selection stays visible,
//! moving the window as little as possible ("sticky" scrolling). Items
//! may span several rows: an item's row height is one plus the number of
//! newlines in its label.

use vstd::prelude::*;
use vstd::string::StrSliceExecFns;

use crate::item::{ItemModel, LibItem};
use crate::list::Library;

verus! {

/// Number of newline characters in a label.
pub open spec fn newlines(s: Seq<char>) -> nat
    decreases s.len(),
{
    if s.len() == 0 {
        0
    } else {
        newlines(s.drop_last()) + if s.last() == '\n' {
            1nat
        } else {
            0nat
        }
    }
}

/// Rows an item occupies on screen: its label's line count, at least 1.
pub open spec fn row_height(s: Seq<char>) -> nat {
    1 + newlines(s)
}

/// The row heights of a sequence of items.
pub open spec fn heights_of(items: Seq<ItemModel>) -> Seq<nat> {
    items.map(|i: int, it: ItemModel| row_height(it.label))
}

/// Sum of the heights over the index range `[a, b)`.
pub open spec fn sum_range(hs: Seq<nat>, a: int, b: int) -> nat
    decreases b - a,
{
    if a >= b {
        0
    } else {
        sum_range(hs, a, b - 1) + if 0 <= b - 1 < hs.len() {
            hs[b - 1]
        } else {
            0nat
        }
    }
}

/// Splitting a height sum at the front.
pub proof fn lemma_sum_front(hs: Seq<nat>, a: int, b: int)
    requires
        0 <= a < b <= hs.len(),
    ensures
        sum_range(hs, a, b) == hs[a] + sum_range(hs, a + 1, b),
    decreases b - a,
{
    if a + 1 < b {
        lemma_sum_front(hs, a, b - 1);
        assert(sum_range(hs, a, b) == sum_range(hs, a, b - 1) + hs[b - 1]);
        assert(sum_range(hs, a + 1, b) == sum_range(hs, a + 1, b - 1) + hs[b - 1]);
    } else {
        assert(sum_range(hs, a, b) == sum_range(hs, a, a) + hs[a]);
        assert(sum_range(hs, a + 1, b) == 0);
    }
}

/// A height sum grows with its right bound.
pub proof fn lemma_sum_mono(hs: Seq<nat>, a: int, b1: int, b2: int)
    requires
        a <= b1 <= b2,
    ensures
        sum_range(hs, a, b1) <= sum_range(hs, a, b2),
    decreases b2 - b1,
{
    if b1 < b2 {
        lemma_sum_mono(hs, a, b1, b2 - 1);
    }
}

/// Labels short enough that a row count fits in `usize` (a machine limit,
/// vacuous for any label that fits in memory).
pub open spec fn labels_fit(items: Seq<ItemModel>) -> bool {
    forall|i: int| 0 <= i < items.len() ==> #[trigger] items[i].label.len() < usize::MAX
}

/// Height sums are additive over adjacent ranges.
pub proof fn lemma_sum_split(hs: Seq<nat>, a: int, b: int, c: int)
    requires
        a <= b <= c,
    ensures
        sum_range(hs, a, c) == sum_range(hs, a, b) + sum_range(hs, b, c),
    decreases c - b,
{
    if b < c {
        lemma_sum_split(hs, a, b, c - 1);
    }
}

/// A height sum shrinks as its left bound moves right.
pub proof fn lemma_sum_mono_left(hs: Seq<nat>, a1: int, a2: int, b: int)
    requires
        0 <= a2 <= a1 <= b <= hs.len(),
    ensures
        sum_range(hs, a1, b) <= sum_range(hs, a2, b),
    decreases a1 - a2,
{
    if a2 < a1 {
        lemma_sum_front(hs, a2, b);
        lemma_sum_mono_left(hs, a1, a2 + 1, b);
    }
}

/// Greedy growth: walking right from `a`, the index just past the last
/// item that still fits in `budget` rows.
pub open spec fn grow_end_from(hs: Seq<nat>, a: int, budget: int) -> int
    decreases hs.len() - a,
{
    if a < 0 || a >= hs.len() {
        a
    } else if hs[a] > budget {
        a
    } else {
        grow_end_from(hs, a + 1, budget - hs[a])
    }
}

/// `grow_end_from` yields the greatest end whose height sum fits.
pub proof fn lemma_grow_props(hs: Seq<nat>, a: int, budget: int)
    requires
        0 <= a <= hs.len(),
        budget >= 0,
    ensures
        a <= grow_end_from(hs, a, budget) <= hs.len(),
        sum_range(hs, a, grow_end_from(hs, a, budget)) <= budget,
        grow_end_from(hs, a, budget) < hs.len() ==> sum_range(
            hs,
            a,
            grow_end_from(hs, a, budget) + 1,
        ) > budget,
    decreases hs.len() - a,
{
    let e = grow_end_from(hs, a, budget);
    if a < hs.len() && hs[a] <= budget {
        lemma_grow_props(hs, a + 1, budget - hs[a]);
        lemma_sum_front(hs, a, e);
        if e < hs.len() {
            lemma_sum_front(hs, a, e + 1);
        }
    } else {
        assert(sum_range(hs, a, a) == 0);
        if a < hs.len() {
            assert(sum_range(hs, a, a + 1) == hs[a]);
        }
    }
}

/// Any end with the greedy characterization is `grow_end_from`.
pub proof fn lemma_grow_unique(hs: Seq<nat>, a: int, budget: int, e: int)
    requires
        0 <= a <= e <= hs.len(),
        budget >= 0,
        sum_range(hs, a, e) <= budget,
        e < hs.len() ==> sum_range(hs, a, e + 1) > budget,
    ensures
        e == grow_end_from(hs, a, budget),
{
    let g = grow_end_from(hs, a, budget);
    lemma_grow_props(hs, a, budget);
    if e < g {
        lemma_sum_mono(hs, a, e + 1, g);
    } else if g < e {
        lemma_sum_mono(hs, a, g + 1, e);
    }
}

/// Backward walk: starting at `s` with `budget` rows to spare, the least
/// start reachable by stepping left while each step still fits.
pub open spec fn back_walk(hs: Seq<nat>, s: int, budget: int) -> int
    decreases s,
{
    if s <= 0 {
        0
    } else if hs[s - 1] > budget {
        s
    } else {
        back_walk(hs, s - 1, budget - hs[s - 1])
    }
}

/// The start of the minimal backward scroll that brings `sel` in view:
/// the least index from which the rows up to and including `sel` fit in
/// `budget`, or `sel` itself when that item alone does not fit.
pub open spec fn back_start_from(hs: Seq<nat>, sel: int, budget: int) -> int {
    if hs[sel] > budget {
        sel
    } else {
        back_walk(hs, sel, budget - hs[sel])
    }
}

pub proof fn lemma_back_walk_props(hs: Seq<nat>, s: int, budget: int)
    requires
        0 <= s <= hs.len(),
        budget >= 0,
    ensures
        0 <= back_walk(hs, s, budget) <= s,
        sum_range(hs, back_walk(hs, s, budget), s) <= budget,
        back_walk(hs, s, budget) > 0 ==> sum_range(hs, back_walk(hs, s, budget) - 1, s) > budget,
    decreases s,
{
    let t = back_walk(hs, s, budget);
    if s > 0 && hs[s - 1] <= budget {
        lemma_back_walk_props(hs, s - 1, budget - hs[s - 1]);
        assert(sum_range(hs, t, s) == sum_range(hs, t, s - 1) + hs[s - 1]);
        if t > 0 {
            assert(sum_range(hs, t - 1, s) == sum_range(hs, t - 1, s - 1) + hs[s - 1]);
        }
    } else if s > 0 {
        assert(sum_range(hs, s, s) == 0);
        assert(sum_range(hs, s - 1, s - 1) == 0);
        assert(sum_range(hs, s - 1, s) == sum_range(hs, s - 1, s - 1) + hs[s - 1]);
    }
}

/// `back_start_from` yields the least start from which the rows up to and
/// including `sel` fit.
pub proof fn lemma_back_props(hs: Seq<nat>, sel: int, budget: int)
    requires
        0 <= sel < hs.len(),
        budget >= 0,
        hs[sel] <= budget,
    ensures
        0 <= back_start_from(hs, sel, budget) <= sel,
        sum_range(hs, back_start_from(hs, sel, budget), sel + 1) <= budget,
        back_start_from(hs, sel, budget) > 0 ==> sum_range(
            hs,
            back_start_from(hs, sel, budget) - 1,
            sel + 1,
        ) > budget,
{
    let t = back_start_from(hs, sel, budget);
    lemma_back_walk_props(hs, sel, budget - hs[sel]);
    assert(sum_range(hs, t, sel + 1) == sum_range(hs, t, sel) + hs[sel]);
    if t > 0 {
        assert(sum_range(hs, t - 1, sel + 1) == sum_range(hs, t - 1, sel) + hs[sel]);
    }
}

/// Any start with the minimal-backward-scroll characterization is
/// `back_start_from`.
pub proof fn lemma_back_unique(hs: Seq<nat>, sel: int, budget: int, t: int)
    requires
        0 <= t <= sel < hs.len(),
        budget >= 0,
        hs[sel] <= budget,
        sum_range(hs, t, sel + 1) <= budget,
        t > 0 ==> sum_range(hs, t - 1, sel + 1) > budget,
    ensures
        t == back_start_from(hs, sel, budget),
{
    let g = back_start_from(hs, sel, budget);
    lemma_back_props(hs, sel, budget);
    if t < g {
        lemma_sum_mono_left(hs, g - 1, t, sel + 1);
    } else if g < t {
        lemma_sum_mono_left(hs, t - 1, g, sel + 1);
    }
}

/// Rows the label `content` occupies: one plus its newline count.
pub fn item_rows(content: &String) -> (h: usize)
    requires
        content@.len() < usize::MAX,
    ensures
        h as nat == row_height(content@),
{
    let n = content.as_str().unicode_len();
    let mut count: usize = 0;
    let mut i: usize = 0;
    while i < n
        invariant
            n == content@.len(),
            n < usize::MAX,
            i <= n,
            count <= i,
            count as nat == newlines(content@.subrange(0, i as int)),
        decreases n - i,
    {
        let c = content.as_str().get_char(i);
        proof {
            let pre = content@.subrange(0, i as int);
            let ext = content@.subrange(0, i + 1int);
            assert(ext.drop_last() =~= pre);
            assert(ext.last() == content@[i as int]);
        }
        if c == '\n' {
            count = count + 1;
        }
        i = i + 1;
    }
    proof {
        assert(content@.subrange(0, n as int) =~= content@);
    }
    count + 1
}

/// The item models underlying a vector of items.
pub open spec fn vec_models(items: Seq<LibItem>) -> Seq<ItemModel> {
    items.map(|i: int, it: LibItem| it@)
}

/// Greedy growth from `a`: the exec counterpart of `grow_end_from`.
#[verifier::loop_isolation(false)]
fn grow_from(items: &Vec<LibItem>, a: usize, max_height: usize) -> (e: usize)
    requires
        a <= items@.len(),
        labels_fit(vec_models(items@)),
    ensures
        e == grow_end_from(heights_of(vec_models(items@)), a as int, max_height as int),
        a <= e <= items@.len(),
{
    let ghost hs = heights_of(vec_models(items@));
    let n = items.len();
    let mut e = a;
    let mut used: usize = 0;
    let mut done = false;
    while !done
        invariant
            a <= e <= n,
            used as nat == sum_range(hs, a as int, e as int),
            used <= max_height,
            done ==> (e == n || sum_range(hs, a as int, e + 1int) > max_height),
        decreases n - e, (if done { 0int } else { 1int }),
    {
        if e >= n {
            done = true;
        } else {
            proof {
                assert(vec_models(items@)[e as int].label.len() < usize::MAX);
            }
            let h = item_rows(&items[e].content);
            proof {
                assert(hs[e as int] == row_height(items@[e as int]@.label));
                assert(sum_range(hs, a as int, e + 1int) == sum_range(hs, a as int, e as int)
                    + hs[e as int]);
            }
            if h > max_height - used {
                done = true;
            } else {
                used = used + h;
                e = e + 1;
            }
        }
    }
    proof {
        lemma_grow_unique(hs, a as int, max_height as int, e as int);
    }
    e
}

/// Minimal backward scroll to bring `sel` in view: the exec counterpart
/// of `back_start_from`.
#[verifier::loop_isolation(false)]
fn back_from(items: &Vec<LibItem>, sel: usize, max_height: usize) -> (s: usize)
    requires
        sel < items@.len(),
        labels_fit(vec_models(items@)),
    ensures
        s == back_start_from(heights_of(vec_models(items@)), sel as int, max_height as int),
        s <= sel,
{
    let ghost hs = heights_of(vec_models(items@));
    proof {
        assert(vec_models(items@)[sel as int].label.len() < usize::MAX);
        assert(hs[sel as int] == row_height(items@[sel as int]@.label));
    }
    let hsel = item_rows(&items[sel].content);
    if hsel > max_height {
        return sel;
    }
    let mut s = sel;
    let mut used: usize = hsel;
    let mut done = false;
    proof {
        assert(sum_range(hs, sel as int, sel as int) == 0);
        assert(sum_range(hs, sel as int, sel + 1int) == sum_range(hs, sel as int, sel as int)
            + hs[sel as int]);
    }
    while !done
        invariant
            0 <= s <= sel,
            used as nat == sum_range(hs, s as int, sel + 1int),
            used <= max_height,
            done ==> (s == 0 || sum_range(hs, s - 1int, sel + 1int) > max_height),
        decreases s, (if done { 0int } else { 1int }),
    {
        if s == 0 {
            done = true;
        } else {
            proof {
                assert(vec_models(items@)[s - 1int].label.len() < usize::MAX);
            }
            let h = item_rows(&items[s - 1].content);
            proof {
                assert(hs[s - 1int] == row_height(items@[s - 1int]@.label));
                lemma_sum_front(hs, s - 1int, sel + 1int);
            }
            if h > max_height - used {
                done = true;
            } else {
                used = used + h;
                s = s - 1;
            }
        }
    }
    proof {
        lemma_back_unique(hs, sel as int, max_height as int, s as int);
    }
    s
}

/// An index clamped into `[0, n)`.
pub open spec fn clamp_index(i: int, n: int) -> int {
    if i < n {
        i
    } else {
        n - 1
    }
}

/// The row the windower keeps visible: the selection, or the top row when
/// nothing is selected, clamped into the list.
pub open spec fn sel_index(selected: Option<usize>, n: int) -> int {
    clamp_index(
        match selected {
            Some(i) => i as int,
            None => 0int,
        },
        n,
    )
}

/// The window `(start, end)` the algorithm yields. With the clamped
/// offset `off` and selection `sel`, and `e0` the greedy end grown from
/// `off`: a selection inside `[off, e0)` leaves the window alone; one at
/// or past `e0` scrolls forward just enough (the window ends right after
/// the selection and starts at the minimal backward start); one above
/// `off` scrolls back so the selection is the first row, the end capped
/// by both the old window and the available height. A window is never
/// empty: when the selected item alone overflows the height, it
/// degenerates to that single item.
pub open spec fn spec_window(
    hs: Seq<nat>,
    selected: Option<usize>,
    offset: usize,
    max_height: usize,
) -> (int, int) {
    let n = hs.len() as int;
    if n == 0 {
        (0int, 0int)
    } else {
        let off = clamp_index(offset as int, n);
        let sel = sel_index(selected, n);
        let e0 = grow_end_from(hs, off, max_height as int);
        if sel >= e0 {
            (back_start_from(hs, sel, max_height as int), sel + 1)
        } else if sel < off {
            let ge = grow_end_from(hs, sel, max_height as int);
            let m = if e0 <= ge {
                e0
            } else {
                ge
            };
            (sel, if m >= sel + 1 {
                m
            } else {
                sel + 1
            })
        } else {
            (off, e0)
        }
    }
}

/// Which subset of a list to render: the minimal contiguous range that
/// keeps the selection visible, sticky around the remembered offset.
/// Returns `(start, end)`; the caller renders items `[start, end)` and
/// remembers `start` as the new offset.
pub fn compute_visible_range(
    items: &Vec<LibItem>,
    selected: Option<usize>,
    offset: usize,
    max_height: usize,
) -> (r: (usize, usize))
    requires
        labels_fit(vec_models(items@)),
    ensures
        (r.0 as int, r.1 as int) == spec_window(
            heights_of(vec_models(items@)),
            selected,
            offset,
            max_height,
        ),
        r.0 <= r.1 <= items@.len(),
{
    let ghost hs = heights_of(vec_models(items@));
    let n = items.len();
    if n == 0 {
        return (0, 0);
    }
    let off = if offset < n {
        offset
    } else {
        n - 1
    };
    let sel0 = match selected {
        Some(i) => i,
        None => 0,
    };
    let sel = if sel0 < n {
        sel0
    } else {
        n - 1
    };
    let e0 = grow_from(items, off, max_height);
    if sel >= e0 {
        let s = back_from(items, sel, max_height);
        (s, sel + 1)
    } else if sel < off {
        let ge = grow_from(items, sel, max_height);
        let m = if e0 <= ge {
            e0
        } else {
            ge
        };
        let end = if m > sel {
            m
        } else {
            sel + 1
        };
        (sel, end)
    } else {
        (off, e0)
    }
}

/// Compute the visible range for a list and remember the window's start
/// in its cursor, as the renderer does on each tick.
pub fn update_window(lib: &mut Library, max_height: usize) -> (r: (usize, usize))
    requires
        labels_fit(old(lib)@.items),
    ensures
        final(lib)@.items == old(lib)@.items,
        final(lib)@.selected == old(lib)@.selected,
        final(lib)@.policy == old(lib)@.policy,
        (r.0 as int, r.1 as int) == spec_window(
            heights_of(old(lib)@.items),
            old(lib)@.selected,
            old(lib)@.offset,
            max_height,
        ),
        final(lib)@.offset == r.0,
        r.0 <= r.1 <= old(lib)@.items.len(),
{
    proof {
        assert(vec_models(lib.items@) =~= lib@.items);
    }
    let r = compute_visible_range(&lib.items, lib.state.selected, lib.state.offset, max_height);
    lib.state.offset = r.0;
    r
}

/// Windower invariant: on a non-empty list the window always contains the
/// (clamped) selection, lies inside the list, and its rows fit in the
/// available height unless it degenerated to a single over-tall item.
pub proof fn lemma_window_visible(
    hs: Seq<nat>,
    selected: Option<usize>,
    offset: usize,
    max_height: usize,
)
    requires
        hs.len() > 0,
    ensures
        ({
            let (start, end) = spec_window(hs, selected, offset, max_height);
            let sel = sel_index(selected, hs.len() as int);
            &&& 0 <= start <= sel < end <= hs.len()
            &&& (sum_range(hs, start, end) <= max_height || end == start + 1)
        }),
{
    let n = hs.len() as int;
    let off = clamp_index(offset as int, n);
    let sel = sel_index(selected, n);
    let e0 = grow_end_from(hs, off, max_height as int);
    lemma_grow_props(hs, off, max_height as int);
    if sel >= e0 {
        if hs[sel] <= max_height {
            lemma_back_props(hs, sel, max_height as int);
        }
    } else if sel < off {
        let ge = grow_end_from(hs, sel, max_height as int);
        lemma_grow_props(hs, sel, max_height as int);
        let m = if e0 <= ge {
            e0
        } else {
            ge
        };
        if m >= sel + 1 {
            lemma_sum_mono(hs, sel, m, ge);
        }
    }
}

/// Windower invariant, strengthened: when every item alone fits in the
/// available height, the window's rows always fit in it.
pub proof fn lemma_window_fits(
    hs: Seq<nat>,
    selected: Option<usize>,
    offset: usize,
    max_height: usize,
)
    requires
        hs.len() > 0,
        forall|i: int| 0 <= i < hs.len() ==> #[trigger] hs[i] <= max_height,
    ensures
        ({
            let (start, end) = spec_window(hs, selected, offset, max_height);
            let sel = sel_index(selected, hs.len() as int);
            &&& 0 <= start <= sel < end <= hs.len()
            &&& sum_range(hs, start, end) <= max_height
        }),
{
    let n = hs.len() as int;
    let off = clamp_index(offset as int, n);
    let sel = sel_index(selected, n);
    let e0 = grow_end_from(hs, off, max_height as int);
    lemma_window_visible(hs, selected, offset, max_height);
    lemma_grow_props(hs, off, max_height as int);
    if sel >= e0 {
        lemma_back_props(hs, sel, max_height as int);
    } else if sel < off {
        let ge = grow_end_from(hs, sel, max_height as int);
        lemma_grow_props(hs, sel, max_height as int);
        assert(grow_end_from(hs, sel, max_height as int) == grow_end_from(
            hs,
            sel + 1,
            max_height - hs[sel],
        ));
        lemma_grow_props(hs, sel + 1, max_height - hs[sel] as int);
        let m = if e0 <= ge {
            e0
        } else {
            ge
        };
        lemma_sum_mono(hs, sel, m, ge);
    }
}

/// Sticky windowing: when the selection is already visible in the window
/// grown from the remembered offset, the window does not move at all.
/// This is the heart of minimal scrolling: the offset only changes when
/// the selection actually left the window.
pub proof fn lemma_window_sticky(
    hs: Seq<nat>,
    selected: Option<usize>,
    offset: usize,
    max_height: usize,
)
    requires
        (offset as int) < hs.len(),
        offset as int <= sel_index(selected, hs.len() as int),
        sel_index(selected, hs.len() as int) < grow_end_from(
            hs,
            offset as int,
            max_height as int,
        ),
    ensures
        spec_window(hs, selected, offset, max_height) == (
            offset as int,
            grow_end_from(hs, offset as int, max_height as int),
        ),
{
}

/// Windower minimality for multi-row items, advancing: when the window
/// starting at `s1` held the rows up to and including `sel`, and the next
/// item fits the height by itself, then selecting that item scrolls away
/// fewer rows than the entering item and the last item to leave together
/// hold — never a re-scroll from the top.
pub proof fn lemma_window_forward_scroll(
    hs: Seq<nat>,
    sel2: usize,
    s1: usize,
    max_height: usize,
)
    requires
        (s1 as int) < (sel2 as int),
        (sel2 as int) < hs.len(),
        sum_range(hs, s1 as int, sel2 as int) <= max_height,
        hs[sel2 as int] <= max_height,
    ensures
        ({
            let (s2, e2) = spec_window(hs, Some(sel2), s1, max_height);
            &&& s1 <= s2 <= sel2
            &&& (s2 == s1 || sum_range(hs, s1 as int, s2) < hs[sel2 as int] + hs[s2 - 1])
        }),
{
    let n = hs.len() as int;
    let sl = sel2 as int;
    let e0 = grow_end_from(hs, s1 as int, max_height as int);
    lemma_grow_props(hs, s1 as int, max_height as int);
    if sl >= e0 {
        let s2 = back_start_from(hs, sl, max_height as int);
        lemma_back_props(hs, sl, max_height as int);
        // The window from s1 cannot reach past the greedy end: the rows
        // up to and including the new selection no longer fit from s1.
        lemma_sum_mono(hs, s1 as int, e0 + 1, sl + 1);
        assert(sum_range(hs, s1 as int, sl + 1) > max_height);
        // So the new start lies strictly right of s1.
        if s2 <= s1 as int {
            lemma_sum_mono_left(hs, s1 as int, s2, sl + 1);
            assert(false);
        }
        // Splitting the new window's sum at the new start bounds the
        // scrolled rows by what entered and what left.
        lemma_sum_split(hs, s1 as int, s2, sl + 1);
        lemma_sum_front(hs, s2 - 1, sl + 1);
        lemma_sum_split(hs, s1 as int, sl, sl + 1);
        assert(sum_range(hs, sl, sl + 1) == hs[sl] + sum_range(hs, sl + 1, sl + 1));
    } else {
        // The new selection is still inside the window grown from s1:
        // the window does not move.
        assert(spec_window(hs, Some(sel2), s1, max_height).0 == s1 as int);
    }
}

/// Windower minimality, retreating: when the selection sits on the
/// window's first row, one retreat step makes the previous item the first
/// row — the start moves back by exactly one item.
pub proof fn lemma_window_retreat_step(hs: Seq<nat>, sel: usize, max_height: usize)
    requires
        1 <= sel as int,
        (sel as int) < hs.len(),
    ensures
        spec_window(hs, Some((sel - 1) as usize), sel, max_height).0 == sel - 1int,
{
    lemma_grow_props(hs, sel as int, max_height as int);
}

/// With unit-height rows the greedy end is start plus budget, capped at
/// the list's length.
pub proof fn lemma_unit_grow(hs: Seq<nat>, a: int, budget: int)
    requires
        forall|i: int| 0 <= i < hs.len() ==> #[trigger] hs[i] == 1,
        0 <= a <= hs.len(),
        budget >= 0,
    ensures
        grow_end_from(hs, a, budget) == if a + budget <= hs.len() {
            a + budget
        } else {
            hs.len() as int
        },
    decreases hs.len() - a,
{
    if a < hs.len() && budget >= 1 {
        lemma_unit_grow(hs, a + 1, budget - 1);
    }
}

pub proof fn lemma_unit_back_walk(hs: Seq<nat>, s: int, budget: int)
    requires
        forall|i: int| 0 <= i < hs.len() ==> #[trigger] hs[i] == 1,
        0 <= s <= hs.len(),
        budget >= 0,
    ensures
        back_walk(hs, s, budget) == if s - budget >= 0 {
            s - budget
        } else {
            0int
        },
    decreases s,
{
    if s > 0 && budget >= 1 {
        lemma_unit_back_walk(hs, s - 1, budget - 1);
    }
}

/// With unit-height rows the minimal backward start keeps exactly
/// `budget` rows ending at the selection.
pub proof fn lemma_unit_back(hs: Seq<nat>, sel: int, budget: int)
    requires
        forall|i: int| 0 <= i < hs.len() ==> #[trigger] hs[i] == 1,
        0 <= sel < hs.len(),
        budget >= 1,
    ensures
        back_start_from(hs, sel, budget) == if sel + 1 - budget >= 0 {
            sel + 1 - budget
        } else {
            0int
        },
{
    lemma_unit_back_walk(hs, sel, budget - 1);
}

/// Windower minimality: with unit-height rows, moving the selection one
/// step — the window start remembered as the new offset in between —
/// changes the window start by at most one: the window follows the
/// cursor, it never re-scrolls from the top.
pub proof fn lemma_window_minimal_step(
    hs: Seq<nat>,
    sel1: usize,
    sel2: usize,
    offset: usize,
    offset2: usize,
    max_height: usize,
)
    requires
        forall|i: int| 0 <= i < hs.len() ==> #[trigger] hs[i] == 1,
        max_height >= 1,
        (sel1 as int) < hs.len(),
        (sel2 as int) < hs.len(),
        sel2 == sel1 + 1 || sel1 == sel2 + 1,
        offset2 as int == spec_window(hs, Some(sel1), offset, max_height).0,
    ensures
        ({
            let s1 = spec_window(hs, Some(sel1), offset, max_height).0;
            let s2 = spec_window(hs, Some(sel2), offset2, max_height).0;
            &&& (sel2 == sel1 + 1 ==> s1 <= s2 <= s1 + 1)
            &&& (sel1 == sel2 + 1 ==> s1 - 1 <= s2 <= s1)
        }),
{
    let n = hs.len() as int;
    let off = clamp_index(offset as int, n);
    let maxb = max_height as int;
    lemma_unit_grow(hs, off, maxb);
    lemma_unit_back(hs, sel1 as int, maxb);
    let s1 = spec_window(hs, Some(sel1), offset, max_height).0;
    assert(s1 <= sel1 < s1 + maxb);
    assert(0 <= s1 < n);
    lemma_unit_grow(hs, s1, maxb);
    lemma_unit_back(hs, sel2 as int, maxb);
    lemma_unit_grow(hs, sel1 as int, maxb);
    lemma_unit_grow(hs, sel2 as int, maxb);
}

} // verus!
