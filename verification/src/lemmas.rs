//! Supporting proofs about the grammar model: how [`split_segs`] decomposes
//! around the first separator, and how the per-segment verdict relates to
//! segment well-formedness.

use vstd::prelude::*;

use crate::chars::{is_edge_char, is_permitted_char};
use crate::model::{
    deep_error, first_bad_from, first_sep_from, is_sep_at, seg_error, segment_wf, split_segs,
    Reason,
};

verus! {

/// What `first_sep_from` finds: the first separator at or after `i`, or the
/// guarantee that there is none.
pub(crate) proof fn lemma_first_sep_from_props(s: Seq<char>, i: int)
    requires
        0 <= i,
    ensures
        (match first_sep_from(s, i) {
            Some(d) => i <= d && is_sep_at(s, d) && (forall|j: int|
                i <= j < d ==> !is_sep_at(s, j)),
            None => forall|j: int| i <= j ==> !is_sep_at(s, j),
        }),
    decreases s.len() - i,
{
    if i + 2 > s.len() {
    } else if s[i] == ':' && s[i + 1] == ':' {
    } else {
        lemma_first_sep_from_props(s, i + 1);
        assert(!is_sep_at(s, i));
    }
}

/// What `first_bad_from` finds: the first character at or after `i` that is
/// not permitted, or the guarantee that all of them are.
pub(crate) proof fn lemma_first_bad_from_props(seg: Seq<char>, i: int)
    requires
        0 <= i,
    ensures
        (match first_bad_from(seg, i) {
            Some(k) => i <= k < seg.len() && !is_permitted_char(seg[k]) && (forall|j: int|
                i <= j < k ==> is_permitted_char(#[trigger] seg[j])),
            None => forall|j: int| i <= j < seg.len() ==> is_permitted_char(#[trigger] seg[j]),
        }),
    decreases seg.len() - i,
{
    if i >= seg.len() {
    } else if !is_permitted_char(seg[i]) {
    } else {
        lemma_first_bad_from_props(seg, i + 1);
    }
}

/// A separator in the suffix `s.skip(a)` is a separator of `s`, shifted.
pub(crate) proof fn lemma_sep_shift(s: Seq<char>, a: int, m: int)
    requires
        0 <= a <= s.len(),
        0 <= m,
    ensures
        is_sep_at(s.skip(a), m) <==> is_sep_at(s, a + m),
{
    let t = s.skip(a);
    if m + 2 <= t.len() {
        assert(t[m] == s[a + m]);
        assert(t[m + 1] == s[a + m + 1]);
    }
}

/// Splitting a string whose first separator stands at `d` yields the prefix
/// before `d` as the first segment, followed by the split of the remainder.
pub(crate) proof fn lemma_split_first_sep(s: Seq<char>, d: int)
    requires
        is_sep_at(s, d),
        forall|j: int| 0 <= j < d ==> !is_sep_at(s, j),
    ensures
        split_segs(s) == seq![s.subrange(0, d)] + split_segs(s.skip(d + 2)),
    decreases d,
{
    if d == 0 {
        assert(s.subrange(0, 0) =~= Seq::<char>::empty());
        assert(split_segs(s) =~= seq![s.subrange(0, d)] + split_segs(s.skip(d + 2)));
    } else {
        assert(!is_sep_at(s, 0));
        let t = s.skip(1);
        assert(is_sep_at(t, d - 1)) by {
            lemma_sep_shift(s, 1, d - 1);
        }
        assert forall|j: int| 0 <= j < d - 1 implies !is_sep_at(t, j) by {
            lemma_sep_shift(s, 1, j);
        }
        lemma_split_first_sep(t, d - 1);
        let rest = split_segs(t);
        assert(rest[0] == t.subrange(0, d - 1));
        assert(rest.skip(1) =~= split_segs(t.skip(d + 1)));
        assert(t.skip(d + 1) =~= s.skip(d + 2));
        assert(seq![s[0]] + t.subrange(0, d - 1) =~= s.subrange(0, d));
        assert(split_segs(s) =~= seq![s.subrange(0, d)] + split_segs(s.skip(d + 2)));
    }
}

/// Splitting a string that holds no separator yields that string as the one
/// segment.
pub(crate) proof fn lemma_split_no_sep(s: Seq<char>)
    requires
        forall|j: int| 0 <= j ==> !is_sep_at(s, j),
    ensures
        split_segs(s) == seq![s],
    decreases s.len(),
{
    if s.len() == 0 {
        assert(s =~= Seq::<char>::empty());
        assert(split_segs(s) =~= seq![s]);
    } else {
        assert(!is_sep_at(s, 0));
        let t = s.skip(1);
        assert forall|j: int| 0 <= j implies !is_sep_at(t, j) by {
            lemma_sep_shift(s, 1, j);
        }
        lemma_split_no_sep(t);
        let rest = split_segs(t);
        assert(rest[0] == t);
        assert(rest.skip(1) =~= Seq::<Seq<char>>::empty());
        assert(seq![s[0]] + t =~= s);
        assert(split_segs(s) =~= seq![s]);
    }
}

/// The segment verdict when the scan stops at an unpermitted character:
/// `j` is the first such index, and it is reported at `start + j`.
pub(crate) proof fn lemma_seg_error_char(seg: Seq<char>, start: int, j: int)
    requires
        0 <= j < seg.len(),
        !is_permitted_char(seg[j]),
        forall|m: int| 0 <= m < j ==> is_permitted_char(#[trigger] seg[m]),
    ensures
        seg_error(seg, start) == Some(
            Reason::InvalidCharacter { character: seg[j], position: start + j },
        ),
{
    lemma_first_bad_from_props(seg, 0);
    match first_bad_from(seg, 0) {
        Some(k) => {
            if k < j {
                assert(is_permitted_char(seg[k]));
            }
            if k > j {
                assert(is_permitted_char(seg[j]));
            }
            assert(k == j);
        },
        None => {
            assert(is_permitted_char(seg[j]));
        },
    }
}

/// The segment verdict when every character is permitted: only the segment's
/// own edges can still reject it.
pub(crate) proof fn lemma_seg_error_edges(seg: Seq<char>, start: int)
    requires
        seg.len() > 0,
        forall|m: int| 0 <= m < seg.len() ==> is_permitted_char(#[trigger] seg[m]),
    ensures
        seg_error(seg, start) == (if is_edge_char(seg[0]) {
            Some(Reason::InvalidNamespacePartLeading { part: seg, character: seg[0] })
        } else if is_edge_char(seg[seg.len() - 1]) {
            Some(
                Reason::InvalidNamespacePartTrailing {
                    part: seg,
                    character: seg[seg.len() - 1],
                },
            )
        } else {
            None
        }),
{
    lemma_first_bad_from_props(seg, 0);
    match first_bad_from(seg, 0) {
        Some(k) => {
            assert(is_permitted_char(seg[k]));
        },
        None => {
        },
    }
}

/// A segment passes its verdict exactly when it is well formed; the starting
/// position only shapes the payload, never the outcome.
pub(crate) proof fn lemma_seg_error_none_wf(seg: Seq<char>, start: int)
    ensures
        seg_error(seg, start) is None <==> segment_wf(seg),
{
    if seg.len() > 0 {
        lemma_first_bad_from_props(seg, 0);
        match first_bad_from(seg, 0) {
            Some(k) => {
                assert(!segment_wf(seg));
            },
            None => {
            },
        }
    }
}

/// A sequence of segments passes the deep check exactly when each segment is
/// well formed.
pub(crate) proof fn lemma_deep_error_none_wf(segs: Seq<Seq<char>>, pos: int)
    ensures
        deep_error(segs, pos) is None <==> (forall|k: int|
            0 <= k < segs.len() ==> segment_wf(#[trigger] segs[k])),
    decreases segs.len(),
{
    if segs.len() > 0 {
        lemma_seg_error_none_wf(segs[0], pos);
        let rest = segs.drop_first();
        lemma_deep_error_none_wf(rest, pos + segs[0].len() + 2);
        if deep_error(segs, pos) is None {
            assert forall|k: int| 0 <= k < segs.len() implies segment_wf(#[trigger] segs[k]) by {
                if k > 0 {
                    assert(segs[k] == rest[k - 1]);
                    assert(segment_wf(rest[k - 1]));
                }
            }
        } else {
            if segment_wf(segs[0]) {
                assert(seg_error(segs[0], pos) is None);
                assert(deep_error(rest, pos + segs[0].len() + 2) is Some);
                let k0 = choose|k: int|
                    0 <= k < rest.len() && !segment_wf(#[trigger] rest[k]);
                assert(segs[k0 + 1] == rest[k0]);
            }
        }
    }
}

/// Peeling one segment off the front: if the segments of `s` from `start` on
/// begin with the segment `[start, end)` — `end` being the first separator at
/// or after `start`, or the end of `s` — then the deep verdict from `start`
/// is that segment's verdict, or else the deep verdict of what follows the
/// separator.
pub(crate) proof fn lemma_peel(s: Seq<char>, start: int, end: int)
    requires
        0 <= start <= end <= s.len(),
        forall|m: int| start <= m < end ==> !is_sep_at(s, m),
        end < s.len() ==> is_sep_at(s, end),
        end == s.len() ==> forall|m: int| start <= m ==> !is_sep_at(s, m),
    ensures
        deep_error(split_segs(s.skip(start)), start) == (match seg_error(
            s.subrange(start, end),
            start,
        ) {
            Some(r) => Some(r),
            None => if end < s.len() {
                deep_error(split_segs(s.skip(end + 2)), end + 2)
            } else {
                None
            },
        }),
{
    let t = s.skip(start);
    let d = end - start;
    let seg = s.subrange(start, end);
    if end < s.len() {
        assert(is_sep_at(t, d)) by {
            lemma_sep_shift(s, start, d);
        }
        assert forall|j: int| 0 <= j < d implies !is_sep_at(t, j) by {
            lemma_sep_shift(s, start, j);
        }
        lemma_split_first_sep(t, d);
        assert(t.subrange(0, d) =~= seg);
        assert(t.skip(d + 2) =~= s.skip(end + 2));
        let segs = split_segs(t);
        assert(segs[0] == seg);
        assert(segs.drop_first() =~= split_segs(s.skip(end + 2)));
        assert(start + segs[0].len() + 2 == end + 2);
    } else {
        assert forall|j: int| 0 <= j implies !is_sep_at(t, j) by {
            lemma_sep_shift(s, start, j);
        }
        lemma_split_no_sep(t);
        assert(t =~= seg);
        let segs = seq![t];
        assert(segs[0] == seg);
        assert(segs.drop_first() =~= Seq::<Seq<char>>::empty());
        assert(deep_error(segs.drop_first(), start + seg.len() + 2) is None);
    }
}

/// When every segment of `s` is well formed, every character of `s` is a
/// colon or a permitted segment character.
pub(crate) proof fn lemma_segs_wf_chars(s: Seq<char>)
    requires
        forall|k: int| 0 <= k < split_segs(s).len() ==> segment_wf(#[trigger] split_segs(s)[k]),
    ensures
        forall|i: int| 0 <= i < s.len() ==> s[i] == ':' || is_permitted_char(#[trigger] s[i]),
    decreases s.len(),
{
    lemma_first_sep_from_props(s, 0);
    match first_sep_from(s, 0) {
        None => {
            lemma_split_no_sep(s);
            if s.len() > 0 {
                assert(split_segs(s)[0] == s);
                assert(segment_wf(s));
            }
        },
        Some(d) => {
            lemma_split_first_sep(s, d);
            let head = s.subrange(0, d);
            let s2 = s.skip(d + 2);
            assert(split_segs(s)[0] == head);
            assert(segment_wf(head));
            assert forall|k: int| 0 <= k < split_segs(s2).len() implies segment_wf(
                #[trigger] split_segs(s2)[k],
            ) by {
                assert(split_segs(s)[k + 1] == split_segs(s2)[k]);
            }
            lemma_segs_wf_chars(s2);
            assert forall|i: int| 0 <= i < s.len() implies s[i] == ':' || is_permitted_char(
                #[trigger] s[i],
            ) by {
                if i < d {
                    assert(head[i] == s[i]);
                    assert(is_permitted_char(head[i]));
                } else if i >= d + 2 {
                    assert(s2[i - d - 2] == s[i]);
                    assert(s2[i - d - 2] == ':' || is_permitted_char(s2[i - d - 2]));
                }
            }
        },
    }
}

} // verus!
