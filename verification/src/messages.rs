//! Human-readable rendering of validation errors.
//!
//! [`message_of`] states each message as a character sequence; the executable
//! [`TaskNameValidationError::message`] is proved to produce exactly it.

use vstd::prelude::*;
use vstd::string::StringExecFns;

use crate::model::Reason;
use crate::validator::TaskNameValidationError;

verus! {

/// The decimal digit character for a value below ten.
pub open spec fn dec_digit(d: int) -> char {
    if d == 0 {
        '0'
    } else if d == 1 {
        '1'
    } else if d == 2 {
        '2'
    } else if d == 3 {
        '3'
    } else if d == 4 {
        '4'
    } else if d == 5 {
        '5'
    } else if d == 6 {
        '6'
    } else if d == 7 {
        '7'
    } else if d == 8 {
        '8'
    } else {
        '9'
    }
}

/// The decimal rendering of a non-negative integer, most significant digit
/// first, without leading zeros.
pub open spec fn dec_str(n: int) -> Seq<char>
    decreases n,
{
    if n < 10 {
        seq![dec_digit(n)]
    } else {
        dec_str(n / 10) + seq![dec_digit(n % 10)]
    }
}

/// The message that renders each rejection reason.
pub open spec fn message_of(r: Reason) -> Seq<char> {
    match r {
        Reason::Empty => "Task name cannot be empty"@,
        Reason::TooLong { length, max } => "Task name is too long: "@ + dec_str(length)
            + " characters (maximum: "@ + dec_str(max) + ")"@,
        Reason::InvalidWhitespace => "Task name cannot have leading or trailing whitespace"@,
        Reason::InvalidLeadingCharacter { character } => "Task name cannot start with '"@
            + seq![character] + "' (hyphens and underscores not allowed at the start)"@,
        Reason::InvalidTrailingCharacter { character } => "Task name cannot end with '"@
            + seq![character] + "' (hyphens and underscores not allowed at the end)"@,
        Reason::ConsecutiveNamespaceSeparators => (
        "Task name cannot contain consecutive namespace separators (:::)"@),
        Reason::LeadingNamespaceSeparator => (
        "Task name cannot start with namespace separator (::)"@),
        Reason::TrailingNamespaceSeparator => (
        "Task name cannot end with namespace separator (::)"@),
        Reason::InvalidCharacter { character, position } => "Invalid character '"@
            + seq![character] + "' at position "@ + dec_str(position)
            + " (only ASCII alphanumeric, hyphens, underscores, and '::' are allowed)"@,
        Reason::InvalidNamespacePartLeading { part, character } => "Namespace part '"@ + part
            + "' cannot start with '"@ + seq![character]
            + "' (hyphens and underscores not allowed at the start)"@,
        Reason::InvalidNamespacePartTrailing { part, character } => "Namespace part '"@ + part
            + "' cannot end with '"@ + seq![character]
            + "' (hyphens and underscores not allowed at the end)"@,
    }
}

/// Relies on `String::push`: appends the given character to the end of the
/// string.
#[verifier::external_body]
fn push_char(m: &mut String, c: char)
    ensures
        final(m)@ == old(m)@ + seq![c],
{
    m.push(c);
}

/// The decimal digit character for a value below ten.
fn digit_char(d: usize) -> (c: char)
    requires
        d < 10,
    ensures
        c == dec_digit(d as int),
{
    if d == 0 {
        '0'
    } else if d == 1 {
        '1'
    } else if d == 2 {
        '2'
    } else if d == 3 {
        '3'
    } else if d == 4 {
        '4'
    } else if d == 5 {
        '5'
    } else if d == 6 {
        '6'
    } else if d == 7 {
        '7'
    } else if d == 8 {
        '8'
    } else {
        '9'
    }
}

/// Appends the decimal rendering of `n`.
fn push_dec(m: &mut String, n: usize)
    ensures
        final(m)@ == old(m)@ + dec_str(n as int),
    decreases n,
{
    if n >= 10 {
        push_dec(m, n / 10);
    }
    push_char(m, digit_char(n % 10));
    proof {
        assert(m@ =~= old(m)@ + dec_str(n as int));
    }
}

impl TaskNameValidationError {
    /// Renders the error as the human-readable message stated by
    /// [`message_of`].
    pub fn message(&self) -> (m: String)
        ensures
            m@ == message_of(self@),
    {
        let mut m = String::new();
        match self {
            TaskNameValidationError::Empty => {
                m.append("Task name cannot be empty");
            },
            TaskNameValidationError::TooLong { length, max } => {
                m.append("Task name is too long: ");
                push_dec(&mut m, *length);
                m.append(" characters (maximum: ");
                push_dec(&mut m, *max);
                m.append(")");
            },
            TaskNameValidationError::InvalidWhitespace => {
                m.append("Task name cannot have leading or trailing whitespace");
            },
            TaskNameValidationError::InvalidLeadingCharacter { character } => {
                m.append("Task name cannot start with '");
                push_char(&mut m, *character);
                m.append("' (hyphens and underscores not allowed at the start)");
            },
            TaskNameValidationError::InvalidTrailingCharacter { character } => {
                m.append("Task name cannot end with '");
                push_char(&mut m, *character);
                m.append("' (hyphens and underscores not allowed at the end)");
            },
            TaskNameValidationError::ConsecutiveNamespaceSeparators => {
                m.append("Task name cannot contain consecutive namespace separators (:::)");
            },
            TaskNameValidationError::LeadingNamespaceSeparator => {
                m.append("Task name cannot start with namespace separator (::)");
            },
            TaskNameValidationError::TrailingNamespaceSeparator => {
                m.append("Task name cannot end with namespace separator (::)");
            },
            TaskNameValidationError::InvalidCharacter { character, position } => {
                m.append("Invalid character '");
                push_char(&mut m, *character);
                m.append("' at position ");
                push_dec(&mut m, *position);
                m.append(" (only ASCII alphanumeric, hyphens, underscores, and '::' are allowed)");
            },
            TaskNameValidationError::InvalidNamespacePartLeading { part, character } => {
                m.append("Namespace part '");
                m.append(part.as_str());
                m.append("' cannot start with '");
                push_char(&mut m, *character);
                m.append("' (hyphens and underscores not allowed at the start)");
            },
            TaskNameValidationError::InvalidNamespacePartTrailing { part, character } => {
                m.append("Namespace part '");
                m.append(part.as_str());
                m.append("' cannot end with '");
                push_char(&mut m, *character);
                m.append("' (hyphens and underscores not allowed at the end)");
            },
        }
        proof {
            assert(m@ =~= message_of(self@));
        }
        m
    }
}

} // verus!
