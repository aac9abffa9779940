//! Validation of task names for a build-automation tool.
//!
//! A task name is a sequence of namespace segments joined by the two-character
//! separator `::`; each segment consists of ASCII alphanumerics, hyphens and
//! underscores, and may not begin or end with a hyphen or underscore.  The
//! whole name is bounded in length and may not carry leading or trailing
//! whitespace.
//!
//! The grammar is stated once, mathematically, in [`model`]; the executable
//! checker in [`validator`] is proved to return exactly the verdict of that
//! model, including which violation is reported when several overlap.
//! [`messages`] renders each rejection as a human-readable message, and
//! [`laws`] states the validator's global properties as theorems.

pub mod chars;
pub mod laws;
mod lemmas;
pub mod messages;
pub mod model;
pub mod validator;
