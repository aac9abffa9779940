//! Character classes of the task-name grammar.

use vstd::prelude::*;

verus! {

/// Characters permitted inside a namespace segment: ASCII alphanumerics,
/// hyphen and underscore.
pub open spec fn is_permitted_char(c: char) -> bool {
    ||| 'a' as u32 <= c as u32 && c as u32 <= 'z' as u32
    ||| 'A' as u32 <= c as u32 && c as u32 <= 'Z' as u32
    ||| '0' as u32 <= c as u32 && c as u32 <= '9' as u32
    ||| c == '-'
    ||| c == '_'
}

/// Characters that may not stand at either end of a name or of a segment.
pub open spec fn is_edge_char(c: char) -> bool {
    c == '-' || c == '_'
}

/// The Unicode white-space characters, the set that `str::trim` strips.
pub open spec fn is_space_char(c: char) -> bool {
    ||| c == '\u{0009}'
    ||| c == '\u{000A}'
    ||| c == '\u{000B}'
    ||| c == '\u{000C}'
    ||| c == '\u{000D}'
    ||| c == ' '
    ||| c == '\u{0085}'
    ||| c == '\u{00A0}'
    ||| c == '\u{1680}'
    ||| '\u{2000}' as u32 <= c as u32 && c as u32 <= '\u{200A}' as u32
    ||| c == '\u{2028}'
    ||| c == '\u{2029}'
    ||| c == '\u{202F}'
    ||| c == '\u{205F}'
    ||| c == '\u{3000}'
}

pub fn permitted_char(c: char) -> (r: bool)
    ensures
        r == is_permitted_char(c),
{
    let u = c as u32;
    ('a' as u32 <= u && u <= 'z' as u32) || ('A' as u32 <= u && u <= 'Z' as u32)
        || ('0' as u32 <= u && u <= '9' as u32) || c == '-' || c == '_'
}

pub fn edge_char(c: char) -> (r: bool)
    ensures
        r == is_edge_char(c),
{
    c == '-' || c == '_'
}

pub fn space_char(c: char) -> (r: bool)
    ensures
        r == is_space_char(c),
{
    let u = c as u32;
    c == '\u{0009}' || c == '\u{000A}' || c == '\u{000B}' || c == '\u{000C}' || c == '\u{000D}'
        || c == ' ' || c == '\u{0085}' || c == '\u{00A0}' || c == '\u{1680}' || ('\u{2000}' as u32
        <= u && u <= '\u{200A}' as u32) || c == '\u{2028}' || c == '\u{2029}' || c == '\u{202F}'
        || c == '\u{205F}' || c == '\u{3000}'
}

} // verus!
