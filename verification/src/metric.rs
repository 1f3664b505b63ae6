//! The distance family an index is configured with.

use vstd::prelude::*;

verus! {

/// Distance or similarity function the native engine applies.
///
/// The kind is fixed when an index is constructed and reported back by
/// `metric_type`; this layer passes it through without interpreting it.
#[derive(Clone, Copy, Debug, PartialEq, Eq, Structural)]
pub enum MetricType {
    /// Maximum inner-product similarity.
    InnerProduct,
    /// Squared Euclidean distance.
    L2,
}

impl MetricType {
    /// The numeric code the native engine uses for this metric.
    pub fn code(&self) -> (r: u32)
        ensures
            *self == MetricType::InnerProduct ==> r == 0,
            *self == MetricType::L2 ==> r == 1,
    {
        match self {
            MetricType::InnerProduct => 0,
            MetricType::L2 => 1,
        }
    }

    /// Decode the native engine's metric code; unknown codes yield `None`.
    pub fn from_code(code: u32) -> (r: Option<MetricType>)
        ensures
            code == 0 ==> r == Some(MetricType::InnerProduct),
            code == 1 ==> r == Some(MetricType::L2),
            code >= 2 ==> r is None,
    {
        match code {
            0 => Some(MetricType::InnerProduct),
            1 => Some(MetricType::L2),
            _ => None,
        }
    }
}

} // verus!
