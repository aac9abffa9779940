//! The mathematical model of the task-name grammar.
//!
//! [`check_name`] is the single source of truth: it maps a candidate name to
//! `None` (accepted) or to the first [`Reason`] for rejection, with the checks
//! applied in a fixed order so that overlapping violations resolve
//! deterministically.  The executable checker is proved to return exactly
//! this verdict.

use vstd::prelude::*;

use crate::chars::{is_edge_char, is_permitted_char, is_space_char};

verus! {

/// Upper bound on the length of a task name, counted in characters.
pub const MAX_TASK_NAME_LENGTH: usize = 256;

/// Why a candidate name is rejected.  Mirrors the executable error type,
/// with mathematical payloads: positions are unbounded integers and a
/// namespace part is a character sequence.
pub enum Reason {
    Empty,
    TooLong { length: int, max: int },
    InvalidWhitespace,
    InvalidLeadingCharacter { character: char },
    InvalidTrailingCharacter { character: char },
    ConsecutiveNamespaceSeparators,
    LeadingNamespaceSeparator,
    TrailingNamespaceSeparator,
    InvalidCharacter { character: char, position: int },
    InvalidNamespacePartLeading { part: Seq<char>, character: char },
    InvalidNamespacePartTrailing { part: Seq<char>, character: char },
}

/// A namespace separator `::` begins at index `i` of `s`.
pub open spec fn is_sep_at(s: Seq<char>, i: int) -> bool {
    &&& 0 <= i
    &&& i + 2 <= s.len()
    &&& s[i] == ':'
    &&& s[i + 1] == ':'
}

/// Three consecutive colons begin at index `i` of `s`.
pub open spec fn is_triple_at(s: Seq<char>, i: int) -> bool {
    &&& 0 <= i
    &&& i + 3 <= s.len()
    &&& s[i] == ':'
    &&& s[i + 1] == ':'
    &&& s[i + 2] == ':'
}

/// `s` contains three or more consecutive colons.
pub open spec fn has_triple_sep(s: Seq<char>) -> bool {
    exists|i: int| is_triple_at(s, i)
}

/// The index of the first separator at or after `i`, if any.
pub open spec fn first_sep_from(s: Seq<char>, i: int) -> Option<int>
    decreases s.len() - i,
{
    if i < 0 || i + 2 > s.len() {
        None
    } else if s[i] == ':' && s[i + 1] == ':' {
        Some(i)
    } else {
        first_sep_from(s, i + 1)
    }
}

/// `s` split on the two-character separator `::`, leftmost match first,
/// exactly as `str::split` does it: an empty `s` yields one empty segment,
/// and adjacent separators yield empty segments between them.
pub open spec fn split_segs(s: Seq<char>) -> Seq<Seq<char>>
    decreases s.len(),
{
    if is_sep_at(s, 0) {
        seq![Seq::<char>::empty()] + split_segs(s.skip(2))
    } else if s.len() == 0 {
        seq![Seq::<char>::empty()]
    } else {
        let rest = split_segs(s.skip(1));
        seq![seq![s[0]] + rest[0]] + rest.skip(1)
    }
}

/// The index of the first character of `seg` at or after `i` that is not
/// permitted inside a segment, if any.
pub open spec fn first_bad_from(seg: Seq<char>, i: int) -> Option<int>
    decreases seg.len() - i,
{
    if i < 0 || i >= seg.len() {
        None
    } else if !is_permitted_char(seg[i]) {
        Some(i)
    } else {
        first_bad_from(seg, i + 1)
    }
}

/// The verdict on one namespace segment, in the order the checks are made:
/// emptiness, then the character scan, then the segment's own edges.
/// `start` is the index in the full name at which the segment begins;
/// a rejected character is reported at its index in the full name.
pub open spec fn seg_error(seg: Seq<char>, start: int) -> Option<Reason> {
    if seg.len() == 0 {
        Some(Reason::ConsecutiveNamespaceSeparators)
    } else {
        match first_bad_from(seg, 0) {
            Some(i) => Some(
                Reason::InvalidCharacter { character: seg[i], position: start + i },
            ),
            None => if is_edge_char(seg[0]) {
                Some(Reason::InvalidNamespacePartLeading { part: seg, character: seg[0] })
            } else if is_edge_char(seg[seg.len() - 1]) {
                Some(
                    Reason::InvalidNamespacePartTrailing {
                        part: seg,
                        character: seg[seg.len() - 1],
                    },
                )
            } else {
                None
            },
        }
    }
}

/// The verdict on a sequence of segments, first rejection wins.  `pos` is the
/// index in the full name at which the first of these segments begins; each
/// later segment begins two characters (one separator) past the end of the
/// one before it.
pub open spec fn deep_error(segs: Seq<Seq<char>>, pos: int) -> Option<Reason>
    decreases segs.len(),
{
    if segs.len() == 0 {
        None
    } else {
        match seg_error(segs[0], pos) {
            Some(r) => Some(r),
            None => deep_error(segs.drop_first(), pos + segs[0].len() + 2),
        }
    }
}

/// The verdict on a candidate name: `None` if it is accepted, otherwise the
/// one reason that is reported.  The checks are applied in this exact order,
/// and the first that fires wins.
pub open spec fn check_name(s: Seq<char>) -> Option<Reason> {
    if s.len() == 0 {
        Some(Reason::Empty)
    } else if s.len() > MAX_TASK_NAME_LENGTH as int {
        Some(Reason::TooLong { length: s.len() as int, max: MAX_TASK_NAME_LENGTH as int })
    } else if is_space_char(s[0]) || is_space_char(s[s.len() - 1]) {
        Some(Reason::InvalidWhitespace)
    } else if is_edge_char(s[0]) {
        Some(Reason::InvalidLeadingCharacter { character: s[0] })
    } else if is_edge_char(s[s.len() - 1]) {
        Some(Reason::InvalidTrailingCharacter { character: s[s.len() - 1] })
    } else if has_triple_sep(s) {
        Some(Reason::ConsecutiveNamespaceSeparators)
    } else if is_sep_at(s, 0) {
        Some(Reason::LeadingNamespaceSeparator)
    } else if is_sep_at(s, s.len() - 2) {
        Some(Reason::TrailingNamespaceSeparator)
    } else {
        deep_error(split_segs(s), 0)
    }
}

/// A name is valid when no check rejects it.
pub open spec fn valid_name(s: Seq<char>) -> bool {
    check_name(s) is None
}

/// A namespace segment is well formed on its own: non-empty, every character
/// permitted, and neither end a hyphen or underscore.
pub open spec fn segment_wf(seg: Seq<char>) -> bool {
    &&& seg.len() > 0
    &&& forall|j: int| 0 <= j < seg.len() ==> is_permitted_char(#[trigger] seg[j])
    &&& !is_edge_char(seg[0])
    &&& !is_edge_char(seg[seg.len() - 1])
}

} // verus!
