//! The executable task-name checker, proved against the grammar model.

use vstd::prelude::*;
use vstd::string::StrSliceExecFns;

use crate::chars::{edge_char, is_edge_char, is_permitted_char, is_space_char, permitted_char,
    space_char};
use crate::lemmas::{lemma_peel, lemma_seg_error_char, lemma_seg_error_edges};
use crate::model::{check_name, deep_error, has_triple_sep, is_sep_at, is_triple_at, split_segs,
    valid_name, Reason, MAX_TASK_NAME_LENGTH};

verus! {

/// Why a candidate task name was rejected.  The variants carry the offending
/// character, its position in the name (counted in characters), or the
/// offending namespace part, as the violation calls for.
#[derive(Debug, Clone, PartialEq, Eq)]
pub enum TaskNameValidationError {
    /// The name is empty.
    Empty,
    /// The name exceeds the maximum length.
    TooLong { length: usize, max: usize },
    /// The name has leading or trailing whitespace.
    InvalidWhitespace,
    /// The whole name starts with a hyphen or underscore.
    InvalidLeadingCharacter { character: char },
    /// The whole name ends with a hyphen or underscore.
    InvalidTrailingCharacter { character: char },
    /// The name contains three or more consecutive colons.
    ConsecutiveNamespaceSeparators,
    /// The name starts with the namespace separator `::`.
    LeadingNamespaceSeparator,
    /// The name ends with the namespace separator `::`.
    TrailingNamespaceSeparator,
    /// A character outside the permitted set, at its position in the name.
    InvalidCharacter { character: char, position: usize },
    /// A namespace part starts with a hyphen or underscore.
    InvalidNamespacePartLeading { part: String, character: char },
    /// A namespace part ends with a hyphen or underscore.
    InvalidNamespacePartTrailing { part: String, character: char },
}

impl View for TaskNameValidationError {
    type V = Reason;

    open spec fn view(&self) -> Reason {
        match self {
            TaskNameValidationError::Empty => Reason::Empty,
            TaskNameValidationError::TooLong { length, max } => Reason::TooLong {
                length: *length as int,
                max: *max as int,
            },
            TaskNameValidationError::InvalidWhitespace => Reason::InvalidWhitespace,
            TaskNameValidationError::InvalidLeadingCharacter { character } => (
            Reason::InvalidLeadingCharacter { character: *character }),
            TaskNameValidationError::InvalidTrailingCharacter { character } => (
            Reason::InvalidTrailingCharacter { character: *character }),
            TaskNameValidationError::ConsecutiveNamespaceSeparators => (
            Reason::ConsecutiveNamespaceSeparators),
            TaskNameValidationError::LeadingNamespaceSeparator => Reason::LeadingNamespaceSeparator,
            TaskNameValidationError::TrailingNamespaceSeparator => (
            Reason::TrailingNamespaceSeparator),
            TaskNameValidationError::InvalidCharacter { character, position } => (
            Reason::InvalidCharacter { character: *character, position: *position as int }),
            TaskNameValidationError::InvalidNamespacePartLeading { part, character } => (
            Reason::InvalidNamespacePartLeading { part: part@, character: *character }),
            TaskNameValidationError::InvalidNamespacePartTrailing { part, character } => (
            Reason::InvalidNamespacePartTrailing { part: part@, character: *character }),
        }
    }
}

/// The index of the first namespace separator `::` at or after `from`, or
/// `n` when there is none.
fn find_sep(name: &str, from: usize, n: usize) -> (r: usize)
    requires
        n == name@.len(),
        n <= MAX_TASK_NAME_LENGTH,
        from <= n,
    ensures
        from <= r <= n,
        r < n ==> is_sep_at(name@, r as int),
        forall|j: int| from <= j < r ==> !is_sep_at(name@, j),
        r == n ==> (forall|j: int| from <= j ==> !is_sep_at(name@, j)),
{
    let mut j = from;
    while j + 1 < n
        invariant
            n == name@.len(),
            n <= MAX_TASK_NAME_LENGTH,
            from <= j <= n,
            forall|m: int| from <= m < j ==> !is_sep_at(name@, m),
        decreases n - j,
    {
        if name.get_char(j) == ':' && name.get_char(j + 1) == ':' {
            return j;
        }
        proof {
            assert(!is_sep_at(name@, j as int));
        }
        j = j + 1;
    }
    n
}

/// Validates a task name and reports which rule it breaks, if any.
///
/// A valid task name is non-empty, at most [`MAX_TASK_NAME_LENGTH`]
/// characters long, free of leading and trailing whitespace, and consists of
/// namespace parts joined by `::`, where each part is made of ASCII
/// alphanumerics, hyphens and underscores and starts and ends with an
/// alphanumeric.  The checks run in a fixed order, so of several overlapping
/// violations always the same one is reported: exactly the one that
/// [`check_name`] names.
pub fn validate_task_name_with_error(name: &str) -> (r: Result<(), TaskNameValidationError>)
    ensures
        (match r {
            Ok(_) => check_name(name@) is None,
            Err(e) => check_name(name@) == Some(e@),
        }),
{
    let n = name.unicode_len();
    if n == 0 {
        return Err(TaskNameValidationError::Empty);
    }
    if n > MAX_TASK_NAME_LENGTH {
        return Err(TaskNameValidationError::TooLong { length: n, max: MAX_TASK_NAME_LENGTH });
    }
    let first = name.get_char(0);
    let last = name.get_char(n - 1);
    if space_char(first) || space_char(last) {
        return Err(TaskNameValidationError::InvalidWhitespace);
    }
    if edge_char(first) {
        return Err(TaskNameValidationError::InvalidLeadingCharacter { character: first });
    }
    if edge_char(last) {
        return Err(TaskNameValidationError::InvalidTrailingCharacter { character: last });
    }
    let mut i: usize = 0;
    while i + 3 <= n
        invariant
            n == name@.len(),
            0 < n <= MAX_TASK_NAME_LENGTH,
            i <= n,
            !is_space_char(name@[0]),
            !is_space_char(name@[n - 1]),
            !is_edge_char(name@[0]),
            !is_edge_char(name@[n - 1]),
            forall|j: int| 0 <= j < i ==> !is_triple_at(name@, j),
        decreases n - i,
    {
        if name.get_char(i) == ':' && name.get_char(i + 1) == ':' && name.get_char(i + 2) == ':' {
            proof {
                assert(is_triple_at(name@, i as int));
            }
            return Err(TaskNameValidationError::ConsecutiveNamespaceSeparators);
        }
        i = i + 1;
    }
    proof {
        assert(!has_triple_sep(name@));
    }
    if n >= 2 && name.get_char(0) == ':' && name.get_char(1) == ':' {
        return Err(TaskNameValidationError::LeadingNamespaceSeparator);
    }
    if n >= 2 && name.get_char(n - 2) == ':' && name.get_char(n - 1) == ':' {
        return Err(TaskNameValidationError::TrailingNamespaceSeparator);
    }
    proof {
        assert(!is_sep_at(name@, 0));
        assert(!is_sep_at(name@, name@.len() - 2));
        assert(name@.skip(0) =~= name@);
        assert(check_name(name@) == deep_error(split_segs(name@), 0));
    }
    let mut seg_start: usize = 0;
    loop
        invariant
            n == name@.len(),
            0 < n <= MAX_TASK_NAME_LENGTH,
            seg_start <= n,
            check_name(name@) == deep_error(
                split_segs(name@.skip(seg_start as int)),
                seg_start as int,
            ),
        decreases n - seg_start,
    {
        let seg_end = find_sep(name, seg_start, n);
        if seg_end == seg_start {
            proof {
                lemma_peel(name@, seg_start as int, seg_end as int);
                assert(name@.subrange(seg_start as int, seg_end as int) =~= Seq::<char>::empty());
            }
            return Err(TaskNameValidationError::ConsecutiveNamespaceSeparators);
        }
        let mut k = seg_start;
        while k < seg_end
            invariant
                n == name@.len(),
                0 < n <= MAX_TASK_NAME_LENGTH,
                seg_start <= k <= seg_end <= n,
                seg_start < seg_end,
                check_name(name@) == deep_error(
                    split_segs(name@.skip(seg_start as int)),
                    seg_start as int,
                ),
                forall|m: int| seg_start <= m < k ==> is_permitted_char(#[trigger] name@[m]),
                forall|m: int| seg_start <= m < seg_end ==> !is_sep_at(name@, m),
                seg_end < n ==> is_sep_at(name@, seg_end as int),
                seg_end == n ==> (forall|m: int| seg_start <= m ==> !is_sep_at(name@, m)),
            decreases seg_end - k,
        {
            let c = name.get_char(k);
            if !permitted_char(c) {
                proof {
                    let seg = name@.subrange(seg_start as int, seg_end as int);
                    assert forall|m: int| 0 <= m < k - seg_start implies is_permitted_char(
                        #[trigger] seg[m],
                    ) by {
                        assert(seg[m] == name@[seg_start + m]);
                    }
                    assert(seg[k - seg_start] == name@[k as int]);
                    lemma_seg_error_char(seg, seg_start as int, k - seg_start as int);
                    lemma_peel(name@, seg_start as int, seg_end as int);
                }
                return Err(TaskNameValidationError::InvalidCharacter { character: c, position: k });
            }
            k = k + 1;
        }
        let first_c = name.get_char(seg_start);
        let last_c = name.get_char(seg_end - 1);
        proof {
            let seg = name@.subrange(seg_start as int, seg_end as int);
            assert forall|m: int| 0 <= m < seg.len() implies is_permitted_char(
                #[trigger] seg[m],
            ) by {
                assert(seg[m] == name@[seg_start + m]);
            }
            lemma_seg_error_edges(seg, seg_start as int);
            lemma_peel(name@, seg_start as int, seg_end as int);
            assert(seg[0] == name@[seg_start as int]);
            assert(seg[seg.len() - 1] == name@[seg_end - 1]);
        }
        if edge_char(first_c) {
            let part = name.substring_char(seg_start, seg_end).to_owned();
            return Err(
                TaskNameValidationError::InvalidNamespacePartLeading {
                    part,
                    character: first_c,
                },
            );
        }
        if edge_char(last_c) {
            let part = name.substring_char(seg_start, seg_end).to_owned();
            return Err(
                TaskNameValidationError::InvalidNamespacePartTrailing {
                    part,
                    character: last_c,
                },
            );
        }
        if seg_end == n {
            return Ok(());
        }
        seg_start = seg_end + 2;
    }
}

/// Whether a task name is valid: the boolean convenience form of
/// [`validate_task_name_with_error`].  It accepts exactly the names on which
/// the detailed form returns `Ok`.
pub fn validate_task_name(name: &str) -> (r: bool)
    ensures
        r == valid_name(name@),
{
    validate_task_name_with_error(name).is_ok()
}

} // verus!
