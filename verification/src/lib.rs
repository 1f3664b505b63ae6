//! Ownership-and-dispatch layer for a handle-based vector similarity
//! search engine.
//!
//! The engine itself lives behind a C-style handle interface and is driven
//! by an unverified shell. This crate holds everything that can be decided
//! and accounted for on this side of that boundary: exclusive ownership of
//! native handles, the wrap/unwrap transfer performed by the ID-remapping
//! wrapper, the external-label table, pre-call validation of buffer shapes,
//! classification of native status signals, and the result containers with
//! their per-query layout. Every native entry point reports back as a plain
//! reply value ([`native`]), and each operation here states exactly how the
//! index state and the returned value follow from that reply.

use vstd::prelude::*;

pub mod containers;
pub mod error;
pub mod handle;
pub mod id_map;
pub mod index;
pub mod laws;
pub mod metric;
pub mod native;

pub use containers::AssignSearchResult;
pub use containers::RangeSearchResult;
pub use containers::SearchResult;
pub use error::Error;
pub use handle::Handle;
pub use id_map::IdMap;
pub use index::IndexImpl;
pub use metric::MetricType;

verus! {

/// Label reported by the engine for a slot with no matching vector.
pub const SENTINEL_LABEL: i64 = -1;

} // verus!
