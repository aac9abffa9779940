//! General properties of the validator, stated and proved once for all
//! inputs.

use vstd::prelude::*;

use crate::chars::is_permitted_char;
use crate::lemmas::{lemma_deep_error_none_wf, lemma_segs_wf_chars};
use crate::model::{check_name, deep_error, segment_wf, split_segs, valid_name, Reason};

verus! {

/// Validation is a pure function of the name alone: any two outcomes that
/// conform to the checker's contract on the same string are the same
/// outcome, so re-running validation can never change the verdict.
pub proof fn lemma_validation_deterministic(
    s: Seq<char>,
    r1: Option<Reason>,
    r2: Option<Reason>,
)
    requires
        r1 == check_name(s),
        r2 == check_name(s),
    ensures
        r1 == r2,
{
}

/// Agreement law: the boolean form accepts a name exactly when the detailed
/// form reports no reason — for outcomes that conform to the two checkers'
/// contracts on the same string, acceptance and `None` coincide.
pub proof fn lemma_bool_form_agrees(s: Seq<char>, detailed: Option<Reason>, accepted: bool)
    requires
        detailed == check_name(s),
        accepted == valid_name(s),
    ensures
        accepted <==> detailed is None,
{
}

/// Segmentation law: splitting an accepted name on `::` yields segments that
/// are all non-empty and that each satisfy the single-segment rules on their
/// own — only permitted characters, with neither hyphen nor underscore at
/// either end.
pub proof fn lemma_valid_name_segments(s: Seq<char>)
    requires
        valid_name(s),
    ensures
        forall|k: int| 0 <= k < split_segs(s).len() ==> segment_wf(#[trigger] split_segs(s)[k]),
{
    assert(check_name(s) == deep_error(split_segs(s), 0));
    lemma_deep_error_none_wf(split_segs(s), 0);
}

/// Character law: a name that contains any character other than a colon or a
/// permitted segment character — in particular any whitespace or non-ASCII
/// character — is rejected.
pub proof fn lemma_disallowed_char_rejected(s: Seq<char>, i: int)
    requires
        0 <= i < s.len(),
        s[i] != ':',
        !is_permitted_char(s[i]),
    ensures
        !valid_name(s),
{
    if valid_name(s) {
        lemma_valid_name_segments(s);
        lemma_segs_wf_chars(s);
        assert(s[i] == ':' || is_permitted_char(s[i]));
    }
}

} // verus!
