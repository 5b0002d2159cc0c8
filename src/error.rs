//! Why formatting failed.
use vstd::prelude::*;

verus! {

/// An error met while formatting.
#[derive(Debug, Clone, Copy, PartialEq, Eq)]
pub enum FormatError {
    /// A component needs a date, time or offset that was not supplied.
    InsufficientTypeInformation,
    /// A supplied value cannot be shown in the chosen format; the field is named.
    InvalidComponent(&'static str),
}

/// A call that appends to an output buffer, going from `before` to `after`
/// and returning `r`, did what `expected` says: on success it appended
/// exactly the expected bytes and returned their number; on failure it
/// returned the expected error.
pub open spec fn outcome_matches(
    expected: Result<Seq<u8>, FormatError>,
    before: Seq<u8>,
    after: Seq<u8>,
    r: Result<usize, FormatError>,
) -> bool {
    match expected {
        Ok(b) => r == Ok::<usize, FormatError>(b.len() as usize) && after == before + b,
        Err(e) => r == Err::<usize, FormatError>(e),
    }
}

} // verus!
