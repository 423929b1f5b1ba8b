//! Ordering of search results: tracks carry an optional track-number tag
//! as text; an album's titles are listed in track order. The sort is
//! stable and keys each track by the parsed tag, tracks without a usable
//! tag first.

use vstd::prelude::*;
use vstd::string::StrSliceExecFns;

use crate::item::{Decor, ItemModel, LibKind};
use crate::list::{lib_wf, Library, Policy};

verus! {

/// Is every character a decimal digit?
pub open spec fn all_digits(s: Seq<char>) -> bool {
    forall|i: int| 0 <= i < s.len() ==> '0' <= #[trigger] s[i] <= '9'
}

/// Numeric value of a digit string, most significant digit first.
pub open spec fn dec_value(s: Seq<char>) -> nat
    decreases s.len(),
{
    if s.len() == 0 {
        0
    } else {
        dec_value(s.drop_last()) * 10 + digit_value(s.last())
    }
}

/// Value of one digit character (0 for a non-digit).
pub open spec fn digit_value(c: char) -> nat {
    if '0' <= c <= '9' {
        ((c as int) - ('0' as int)) as nat
    } else {
        0
    }
}

/// Parse a decimal track number: the value of `s` when it is non-empty,
/// consists of digits only, and fits in a `u32`; `None` otherwise.
pub open spec fn spec_parse_u32(s: Seq<char>) -> Option<u32> {
    if all_digits(s) && s.len() > 0 && dec_value(s) <= u32::MAX {
        Some(dec_value(s) as u32)
    } else {
        None
    }
}

/// The value of a digit string never shrinks as digits are appended.
proof fn lemma_dec_value_extend(s: Seq<char>, i: int)
    requires
        0 <= i < s.len(),
    ensures
        dec_value(s.subrange(0, i + 1)) == dec_value(s.subrange(0, i)) * 10 + digit_value(s[i]),
{
    let ext = s.subrange(0, i + 1);
    assert(ext.drop_last() =~= s.subrange(0, i));
    assert(ext.last() == s[i]);
}

/// A prefix of a digit string never has a larger value than the whole.
proof fn lemma_dec_value_prefix_le(s: Seq<char>, i: int)
    requires
        0 <= i <= s.len(),
    ensures
        dec_value(s.subrange(0, i)) <= dec_value(s),
    decreases s.len() - i,
{
    if i < s.len() {
        lemma_dec_value_extend(s, i);
        lemma_dec_value_prefix_le(s, i + 1);
    } else {
        assert(s.subrange(0, i) =~= s);
    }
}

/// Parse a decimal `u32`, exactly when `s` is a non-empty string of
/// digits whose value fits.
pub fn parse_u32(s: &str) -> (r: Option<u32>)
    ensures
        r == spec_parse_u32(s@),
{
    let n = s.unicode_len();
    if n == 0 {
        return None;
    }
    let mut acc: u64 = 0;
    let mut i: usize = 0;
    while i < n
        invariant
            n == s@.len(),
            0 < n,
            i <= n,
            all_digits(s@.subrange(0, i as int)),
            acc as nat == dec_value(s@.subrange(0, i as int)),
            acc <= u32::MAX,
        decreases n - i,
    {
        let c = s.get_char(i);
        proof {
            lemma_dec_value_extend(s@, i as int);
        }
        if c < '0' || c > '9' {
            proof {
                assert(!all_digits(s@));
            }
            return None;
        }
        proof {
            assert(all_digits(s@.subrange(0, i + 1int)));
        }
        let d = (c as u32) - 48;
        let next = acc * 10 + (d as u64);
        if next > u32::MAX as u64 {
            proof {
                lemma_dec_value_prefix_le(s@, i + 1);
            }
            return None;
        }
        acc = next;
        i = i + 1;
    }
    proof {
        assert(s@.subrange(0, n as int) =~= s@);
    }
    Some(acc as u32)
}

/// A track handed back by a search: its title and the raw text of its
/// track-number tag, when the tag is present.
pub struct TrackEntry {
    pub title: String,
    pub track: Option<String>,
}

/// Mathematical model of a track entry.
pub ghost struct TrackModel {
    pub title: Seq<char>,
    pub track: Option<Seq<char>>,
}

impl View for TrackEntry {
    type V = TrackModel;

    open spec fn view(&self) -> TrackModel {
        TrackModel {
            title: self.title@,
            track: match self.track {
                Some(ref t) => Some(t@),
                None => None,
            },
        }
    }
}

pub open spec fn track_models(s: Seq<TrackEntry>) -> Seq<TrackModel> {
    s.map(|i: int, e: TrackEntry| e@)
}

/// Sort key of a track: its parsed track number, `None` when the tag is
/// missing or unusable. Keyless tracks order before numbered ones.
pub open spec fn spec_key(t: TrackModel) -> Option<u32> {
    match t.track {
        Some(s) => spec_parse_u32(s),
        None => None,
    }
}

/// Key order: `None` first, numbers ascending.
pub open spec fn key_le(a: TrackModel, b: TrackModel) -> bool {
    match (spec_key(a), spec_key(b)) {
        (None, _) => true,
        (Some(_), None) => false,
        (Some(x), Some(y)) => x <= y,
    }
}

/// Insert `e` after every element of `s` whose key is not above `e`'s:
/// the insertion step of a stable insertion sort.
pub open spec fn insert_from_right(s: Seq<TrackModel>, e: TrackModel) -> Seq<TrackModel>
    decreases s.len(),
{
    if s.len() == 0 {
        seq![e]
    } else if key_le(s.last(), e) {
        s.push(e)
    } else {
        insert_from_right(s.drop_last(), e).push(s.last())
    }
}

/// Stable insertion sort by track key.
pub open spec fn spec_sort(s: Seq<TrackModel>) -> Seq<TrackModel>
    decreases s.len(),
{
    if s.len() == 0 {
        s
    } else {
        insert_from_right(spec_sort(s.drop_last()), s.last())
    }
}

/// Where the insertion step lands: with `j` the split point (everything
/// at or after `j` has a key above `e`'s, the element before `j`, if any,
/// does not), the insertion splices `e` in at `j`.
proof fn lemma_insert_split(s: Seq<TrackModel>, e: TrackModel, j: int)
    requires
        0 <= j <= s.len(),
        forall|i: int| j <= i < s.len() ==> !key_le(#[trigger] s[i], e),
        j > 0 ==> key_le(s[j - 1], e),
    ensures
        insert_from_right(s, e) == s.subrange(0, j) + seq![e] + s.subrange(j, s.len() as int),
    decreases s.len(),
{
    if s.len() == 0 {
        assert(insert_from_right(s, e) =~= s.subrange(0, j) + seq![e] + s.subrange(
            j,
            s.len() as int,
        ));
    } else if key_le(s.last(), e) {
        assert(j == s.len());
        assert(s.push(e) =~= s.subrange(0, j) + seq![e] + s.subrange(j, s.len() as int));
    } else {
        let dl = s.drop_last();
        assert(j <= dl.len());
        lemma_insert_split(dl, e, j);
        assert(dl.subrange(0, j) =~= s.subrange(0, j));
        assert(insert_from_right(dl, e).push(s.last()) =~= s.subrange(0, j) + seq![e] + s.subrange(
            j,
            s.len() as int,
        ));
    }
}

/// The sort key of `e`, computed.
fn key_of(e: &TrackEntry) -> (r: Option<u32>)
    ensures
        r == spec_key(e@),
{
    match &e.track {
        Some(t) => parse_u32(t.as_str()),
        None => None,
    }
}

/// Does `a` order at or before `b`?
fn key_le_exec(a: &TrackEntry, b: &TrackEntry) -> (r: bool)
    ensures
        r == key_le(a@, b@),
{
    let ka = key_of(a);
    let kb = key_of(b);
    match (ka, kb) {
        (None, _) => true,
        (Some(_), None) => false,
        (Some(x), Some(y)) => x <= y,
    }
}

/// Sort tracks by their track-number key, stably: the result is exactly
/// the stable insertion sort of the input.
#[verifier::loop_isolation(false)]
pub fn sort_tracks(entries: Vec<TrackEntry>) -> (r: Vec<TrackEntry>)
    ensures
        track_models(r@) == spec_sort(track_models(entries@)),
{
    let ghost input = track_models(entries@);
    let mut out: Vec<TrackEntry> = Vec::new();
    let mut k: usize = 0;
    proof {
        assert(track_models(out@) =~= spec_sort(track_models(entries@.subrange(0, 0))));
    }
    while k < entries.len()
        invariant
            k <= entries@.len(),
            track_models(out@) == spec_sort(track_models(entries@.subrange(0, k as int))),
            out@.len() == k,
        decreases entries@.len() - k,
    {
        let e = TrackEntry {
            title: entries[k].title.clone(),
            track: match &entries[k].track {
                Some(t) => Some(t.clone()),
                None => None,
            },
        };
        proof {
            assert(e@ == entries@[k as int]@);
        }
        let mut j = out.len();
        let mut done = false;
        while !done
            invariant
                0 <= j <= out@.len(),
                forall|i: int| j <= i < out@.len() ==> !key_le(#[trigger] out@[i]@, e@),
                done ==> (j == 0 || key_le(out@[j - 1]@, e@)),
            decreases j, (if done { 0int } else { 1int }),
        {
            if j == 0 {
                done = true;
            } else {
                if key_le_exec(&out[j - 1], &e) {
                    done = true;
                } else {
                    j = j - 1;
                }
            }
        }
        proof {
            let sorted_prefix = track_models(out@);
            lemma_insert_split(sorted_prefix, e@, j as int);
        }
        let ghost old_out = out@;
        out.insert(j, e);
        proof {
            let pre = entries@.subrange(0, k as int);
            let ext = entries@.subrange(0, k + 1int);
            assert(ext.drop_last() =~= pre);
            assert(track_models(ext).drop_last() =~= track_models(pre));
            assert(track_models(ext).last() == e@);
            assert(track_models(out@) =~= track_models(old_out).subrange(0, j as int) + seq![e@]
                + track_models(old_out).subrange(j as int, old_out.len() as int));
            assert(track_models(out@) == spec_sort(track_models(ext)));
        }
        k = k + 1;
    }
    proof {
        assert(entries@.subrange(0, entries@.len() as int) =~= entries@);
    }
    out
}

/// The titles of a search result as a browsable list, in track order:
/// the items are the sorted tracks' titles, tagged as titles.
pub fn titles_from_search(entries: Vec<TrackEntry>) -> (lib: Library)
    ensures
        ({
            let sorted = spec_sort(track_models(entries@));
            &&& lib@.items.len() == sorted.len()
            &&& forall|i: int|
                0 <= i < sorted.len() ==> lib@.items[i] == (ItemModel {
                    label: sorted[i].title,
                    decor: Decor::Normal,
                    kind: LibKind::Title,
                })
            &&& lib@.selected == if sorted.len() == 0 {
                None::<usize>
            } else {
                Some(0usize)
            }
            &&& lib@.offset == 0
            &&& lib@.policy == Policy::Clamp
            &&& lib_wf(lib@)
        }),
{
    let sorted = sort_tracks(entries);
    let mut names: Vec<String> = Vec::new();
    let mut k: usize = 0;
    while k < sorted.len()
        invariant
            k <= sorted@.len(),
            names@.len() == k,
            forall|i: int| 0 <= i < k ==> names@[i]@ == #[trigger] sorted@[i]@.title,
        decreases sorted@.len() - k,
    {
        names.push(sorted[k].title.clone());
        k = k + 1;
    }
    Library::new(names, LibKind::Title)
}

} // verus!
