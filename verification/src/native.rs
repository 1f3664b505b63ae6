//! Replies from the native engine boundary.
//!
//! Every operation of the engine is a synchronous call through a C-style
//! entry point that an unverified shell performs. The shell reports what the
//! engine returned as one of the plain reply values below, and the verified
//! core decides, from its own state and that reply, what the caller sees and
//! how the index state moves. Nothing here promises anything about which
//! reply comes back: the contracts of the core hold for every reply.

use vstd::prelude::*;

use crate::error::Error;

verus! {

/// Status signal of a native entry point that returns no data.
pub enum NativeOutcome {
    /// The entry point returned a zero status.
    Success,
    /// The entry point returned a non-zero status, with its diagnostic.
    Failure { code: i32, message: String },
}

/// How a status signal is classified for the caller.
pub open spec fn status_result(oc: NativeOutcome) -> Result<(), Error> {
    match oc {
        NativeOutcome::Success => Ok(()),
        NativeOutcome::Failure { code, message } => Err(Error::Native { code, message }),
    }
}

/// Reply of a native constructor entry point.
pub enum CreateOutcome {
    /// A fresh native resource was built at this address.
    Created { handle: usize },
    /// The constructor reported a non-zero status.
    Failed { code: i32, message: String },
}

/// Reply of the native search entry point: the caller-sized buffers the
/// engine filled, or its failure status. Distances travel as 32-bit keys
/// whose unsigned order is the order of the underlying distances; the shell
/// converts at the boundary.
pub enum SearchReply {
    /// Both buffers were filled, row-major, `k` slots per query.
    Filled { distances: Vec<u32>, labels: Vec<i64> },
    /// The entry point returned a non-zero status.
    Failed { code: i32, message: String },
}

/// Reply of the native assign entry point.
pub enum AssignReply {
    /// The label buffer was filled, row-major, `k` slots per query.
    Filled { labels: Vec<i64> },
    /// The entry point returned a non-zero status.
    Failed { code: i32, message: String },
}

/// Reply of the native range-search entry points: the validated contents of
/// the variable-length native result structure, or how obtaining it failed.
pub enum RangeReply {
    /// The native result structure was filled and its buffers copied out.
    Filled { result: crate::containers::RangeSearchResult },
    /// The native result structure could not be allocated.
    AllocationFailed,
    /// The search entry point returned a non-zero status.
    Failed { code: i32, message: String },
}

} // verus!
