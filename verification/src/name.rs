//! Validation of metric and label names, and the encoder's error type.
//!
//! A Prometheus identifier must be non-empty, start with a letter or an
//! underscore, and continue with letters, digits or underscores.

use vstd::prelude::*;

verus! {

use vstd::string::StrSliceExecFns;
use vstd::string::StringExecFns;

/// A character allowed as the first character of a metric or label name.
pub open spec fn is_name_start_char(c: char) -> bool {
    ('a' <= c && c <= 'z') || ('A' <= c && c <= 'Z') || c == '_'
}

/// A character allowed after the first character of a metric or label name.
pub open spec fn is_name_char(c: char) -> bool {
    is_name_start_char(c) || ('0' <= c && c <= '9')
}

/// A valid Prometheus identifier: non-empty and matching the full-string
/// pattern `[a-zA-Z_][a-zA-Z0-9_]*`.
pub open spec fn is_valid_name(s: Seq<char>) -> bool {
    &&& s.len() > 0
    &&& is_name_start_char(s[0])
    &&& forall|i: int| 1 <= i < s.len() ==> is_name_char(#[trigger] s[i])
}

/// Why an emission call failed.
#[derive(Debug)]
pub enum MetricsError {
    /// A metric or label name was empty.
    InvalidNameEmpty,
    /// A metric or label name did not match `[a-zA-Z_][a-zA-Z0-9_]*`;
    /// carries the offending name.
    InvalidNamePattern { name: String },
    /// The underlying sink rejected a write. The in-memory encoder of this
    /// crate never produces it; it is the error a fallible sink maps to.
    WriteFailure,
}

/// The error that validation reports for an invalid name: the empty name has
/// its own kind, any other invalid name is reported with the name itself.
pub open spec fn is_name_error(e: MetricsError, name: Seq<char>) -> bool {
    if name.len() == 0 {
        e == MetricsError::InvalidNameEmpty
    } else {
        e matches MetricsError::InvalidNamePattern { name: n } && n@ == name
    }
}

impl MetricsError {
    /// The text that `message` returns for each error.
    pub open spec fn message_text(&self) -> Seq<char> {
        match *self {
            MetricsError::InvalidNameEmpty => "Empty names are not allowed"@,
            MetricsError::InvalidNamePattern { name } => "Name '"@ + name@
                + "' does not match pattern [a-zA-Z_][a-zA-Z0-9_]*"@,
            MetricsError::WriteFailure => "Write to the underlying sink failed"@,
        }
    }

    /// A human-readable description of the error, naming the offending
    /// input and the expected pattern where there is one.
    pub fn message(&self) -> (msg: String)
        ensures
            msg@ == self.message_text(),
    {
        match self {
            MetricsError::InvalidNameEmpty => String::from_str("Empty names are not allowed"),
            MetricsError::InvalidNamePattern { name } => {
                let mut msg = String::from_str("Name '");
                msg.append(name.as_str());
                msg.append("' does not match pattern [a-zA-Z_][a-zA-Z0-9_]*");
                msg
            },
            MetricsError::WriteFailure => String::from_str("Write to the underlying sink failed"),
        }
    }
}

/// Whether `c` may start a name.
fn char_starts_name(c: char) -> (r: bool)
    ensures
        r == is_name_start_char(c),
{
    ('a' <= c && c <= 'z') || ('A' <= c && c <= 'Z') || c == '_'
}

/// Whether `c` may continue a name.
fn char_continues_name(c: char) -> (r: bool)
    ensures
        r == is_name_char(c),
{
    char_starts_name(c) || ('0' <= c && c <= '9')
}

/// Checks that `name` is a valid Prometheus identifier. Returns `Ok(())`
/// exactly when `name` is non-empty and matches `[a-zA-Z_][a-zA-Z0-9_]*`;
/// otherwise reports the empty name or the pattern mismatch, and carries
/// the offending name in the latter case.
pub fn validate_prometheus_name(name: &str) -> (r: Result<(), MetricsError>)
    ensures
        r is Ok <==> is_valid_name(name@),
        r matches Err(e) ==> is_name_error(e, name@),
{
    let len = name.unicode_len();
    if len == 0 {
        return Err(MetricsError::InvalidNameEmpty);
    }
    if !char_starts_name(name.get_char(0)) {
        return Err(MetricsError::InvalidNamePattern { name: String::from_str(name) });
    }
    let mut i: usize = 1;
    while i < len
        invariant
            1 <= i <= len,
            len == name@.len(),
            is_name_start_char(name@[0]),
            forall|j: int| 1 <= j < i ==> is_name_char(#[trigger] name@[j]),
        decreases len - i,
    {
        if !char_continues_name(name.get_char(i)) {
            return Err(MetricsError::InvalidNamePattern { name: String::from_str(name) });
        }
        i += 1;
    }
    Ok(())
}

} // verus!
