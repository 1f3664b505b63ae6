//! Classified failures of index operations.

use vstd::prelude::*;

verus! {

/// Why an operation failed.
///
/// Every fallible operation returns one of these; none panics for ordinary
/// input or for a failure the native engine reports.
#[derive(Debug)]
pub enum Error {
    /// The native engine reported a non-zero status; carries the native
    /// status code and its diagnostic message.
    Native { code: i32, message: String },
    /// `add_with_ids` was invoked on an index variant that lacks arbitrary-ID
    /// support and was not wrapped first.
    UnsupportedOperation,
    /// An input buffer's length is not a multiple of the dimensionality, or
    /// the number of IDs does not match the number of vectors.
    DimensionMismatch,
    /// The native engine could not allocate a result structure.
    ResourceExhausted,
}

} // verus!
