//! Failures that the manifest layer reports to its callers.

use vstd::prelude::*;

verus! {

/// Why a manifest operation could not produce a value.
///
/// A failure of the record source handed to the builder is not listed here:
/// it is returned to the caller as it came.
#[derive(Debug, Clone, PartialEq, Eq)]
pub enum ManifestError {
    /// A coordinate byte string is `actual` bytes long where `8 * rank` bytes
    /// were expected.
    InvalidEncoding { actual: usize, rank: usize },
    /// The rows `from..to` do not lie within a table of `rows` rows, or
    /// `from` is greater than `to`.
    RegionOutOfBounds { from: u32, to: u32, rows: usize },
    /// The columns of row `row` do not describe exactly one payload variant.
    MalformedRow { row: u32 },
}

} // verus!
