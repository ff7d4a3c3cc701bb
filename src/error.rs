use vstd::prelude::*;

verus! {

/// The failures that any step of this layer can report.
#[derive(Debug, Clone, PartialEq, Eq)]
pub enum LapackError {
    /// A size does not fit into the routine's integer width.
    OverflowDimension(String),
    /// An array's shape differs from the shape that is required.
    InvalidDim(String),
    /// A flag character lies outside its legal set.
    InvalidFlag(String),
    /// A consistency check on the configuration failed.
    FailedCheck(String),
    /// A required configuration field was never supplied.
    UninitializedField(String),
    /// A copy happened under a policy that forbids copies.
    ExplicitCopy(String),
    /// An internal state that should not be reached.
    RuntimeError(String),
    /// The routine reported a non-zero status, kept verbatim.
    Info(i64),
    /// Any other failure.
    Miscellaneous(String),
}

/// Builds the message text carried by an error.
pub fn message(s: &str) -> (r: String)
    ensures
        r@ == s@,
{
    s.to_owned()
}

/// Relies on `String::push`: appends one character at the end.
#[verifier::external_body]
pub(crate) fn push_char(s: &mut String, c: char)
    ensures
        final(s)@ == old(s)@.push(c),
{
    s.push(c)
}

/// Relies on `String::push_str`: appends a string slice at the end.
#[verifier::external_body]
pub(crate) fn push_str(s: &mut String, t: &str)
    ensures
        final(s)@ == old(s)@ + t@,
{
    s.push_str(t)
}

} // verus!
