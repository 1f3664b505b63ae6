//! Value containers for the output of assign, search and range search.
//!
//! The fixed-shape containers hold `k` slots per query, row-major. The
//! range-search container holds a variable number of results per query,
//! addressed through a per-query offset table; its accessors compute and
//! justify every offset from the table's invariant.

use vstd::prelude::*;

verus! {

/// Abstract contents of an [`AssignSearchResult`].
pub struct AssignView {
    /// Number of queries answered.
    pub nq: nat,
    /// Slots per query.
    pub k: nat,
    /// Labels, row-major, `k` per query.
    pub labels: Seq<i64>,
}

impl AssignView {
    /// The container's shape: `k` slots for each of `nq` queries.
    pub open spec fn wf(self) -> bool {
        self.k >= 1 && self.labels.len() == self.k * self.nq
    }
}

/// Labels of the `k` nearest neighbours of each query, without distances.
pub struct AssignSearchResult {
    nq: usize,
    k: usize,
    labels: Vec<i64>,
}

impl View for AssignSearchResult {
    type V = AssignView;

    closed spec fn view(&self) -> AssignView {
        AssignView { nq: self.nq as nat, k: self.k as nat, labels: self.labels@ }
    }
}

impl AssignSearchResult {
    /// Take over a label buffer the engine filled for `nq` queries.
    pub fn from_native(nq: usize, k: usize, labels: Vec<i64>) -> (r: AssignSearchResult)
        requires
            k >= 1,
            labels@.len() == k * nq,
        ensures
            r@ == (AssignView { nq: nq as nat, k: k as nat, labels: labels@ }),
            r@.wf(),
    {
        AssignSearchResult { nq, k, labels }
    }

    /// All labels, row-major.
    pub fn labels(&self) -> (r: &Vec<i64>)
        ensures
            r@ == self@.labels,
    {
        &self.labels
    }

    /// Number of queries answered.
    pub fn num_queries(&self) -> (r: usize)
        ensures
            r == self@.nq,
    {
        self.nq
    }

    /// Slots per query.
    pub fn slots_per_query(&self) -> (r: usize)
        ensures
            r == self@.k,
    {
        self.k
    }
}

/// Abstract contents of a [`SearchResult`].
pub struct SearchView {
    /// Number of queries answered.
    pub nq: nat,
    /// Slots per query.
    pub k: nat,
    /// Distance keys, row-major, `k` per query.
    pub distances: Seq<u32>,
    /// Labels, row-major, `k` per query.
    pub labels: Seq<i64>,
}

impl SearchView {
    /// The container's shape: parallel buffers, `k` slots per query.
    pub open spec fn wf(self) -> bool {
        &&& self.k >= 1
        &&& self.labels.len() == self.k * self.nq
        &&& self.distances.len() == self.k * self.nq
    }
}

/// Within each query's block of `k` slots, every distance key is at most
/// the next one.
pub open spec fn rows_sorted(distances: Seq<u32>, k: nat) -> bool {
    forall|i: int|
        0 <= i < distances.len() - 1 && (i + 1) % (k as int) != 0 ==> #[trigger] distances[i]
            <= distances[i + 1]
}

/// Labels and distances of the `k` nearest neighbours of each query.
///
/// Distances travel as 32-bit keys whose unsigned order is the order of the
/// underlying metric values; the unverified shell converts at the boundary.
pub struct SearchResult {
    nq: usize,
    k: usize,
    distances: Vec<u32>,
    labels: Vec<i64>,
}

impl View for SearchResult {
    type V = SearchView;

    closed spec fn view(&self) -> SearchView {
        SearchView {
            nq: self.nq as nat,
            k: self.k as nat,
            distances: self.distances@,
            labels: self.labels@,
        }
    }
}

impl SearchResult {
    /// Take over the parallel buffers the engine filled for `nq` queries.
    pub fn from_native(nq: usize, k: usize, distances: Vec<u32>, labels: Vec<i64>) -> (r:
        SearchResult)
        requires
            k >= 1,
            distances@.len() == k * nq,
            labels@.len() == k * nq,
        ensures
            r@ == (SearchView {
                nq: nq as nat,
                k: k as nat,
                distances: distances@,
                labels: labels@,
            }),
            r@.wf(),
    {
        SearchResult { nq, k, distances, labels }
    }

    /// All labels, row-major.
    pub fn labels(&self) -> (r: &Vec<i64>)
        ensures
            r@ == self@.labels,
    {
        &self.labels
    }

    /// All distance keys, row-major.
    pub fn distances(&self) -> (r: &Vec<u32>)
        ensures
            r@ == self@.distances,
    {
        &self.distances
    }

    /// Number of queries answered.
    pub fn num_queries(&self) -> (r: usize)
        ensures
            r == self@.nq,
    {
        self.nq
    }

    /// Slots per query.
    pub fn slots_per_query(&self) -> (r: usize)
        ensures
            r == self@.k,
    {
        self.k
    }

    /// The labels of one query's block.
    pub fn query_labels(&self, q: usize) -> (r: Vec<i64>)
        requires
            self@.wf(),
            q < self@.nq,
        ensures
            r@ == self@.labels.subrange(
                q as int * self@.k as int,
                q as int * self@.k as int + self@.k as int,
            ),
    {
        proof {
            assert((q as int + 1) * (self.k as int) <= (self.nq as int) * (self.k as int))
                by (nonlinear_arith)
                requires
                    q as int + 1 <= self.nq as int,
                    self.k as int >= 0,
            ;
            assert((q as int + 1) * (self.k as int) == q as int * self.k as int + self.k as int)
                by (nonlinear_arith);
            assert((self.nq as int) * (self.k as int) == (self.k as int) * (self.nq as int))
                by (nonlinear_arith);
        }
        let len = self.labels.len();
        let start: usize = q * self.k;
        let end: usize = start + self.k;
        let mut out: Vec<i64> = Vec::new();
        let mut i: usize = start;
        while i < end
            invariant
                start <= i <= end <= len,
                len == self@.labels.len(),
                out@ == self@.labels.subrange(start as int, i as int),
            decreases end - i,
        {
            out.push(self.labels[i]);
            proof {
                assert(self@.labels.subrange(start as int, i as int + 1)
                    =~= self@.labels.subrange(start as int, i as int).push(
                    self@.labels[i as int],
                ));
            }
            i += 1;
        }
        out
    }

    /// The distance keys of one query's block.
    pub fn query_distances(&self, q: usize) -> (r: Vec<u32>)
        requires
            self@.wf(),
            q < self@.nq,
        ensures
            r@ == self@.distances.subrange(
                q as int * self@.k as int,
                q as int * self@.k as int + self@.k as int,
            ),
    {
        proof {
            assert((q as int + 1) * (self.k as int) <= (self.nq as int) * (self.k as int))
                by (nonlinear_arith)
                requires
                    q as int + 1 <= self.nq as int,
                    self.k as int >= 0,
            ;
            assert((q as int + 1) * (self.k as int) == q as int * self.k as int + self.k as int)
                by (nonlinear_arith);
            assert((self.nq as int) * (self.k as int) == (self.k as int) * (self.nq as int))
                by (nonlinear_arith);
        }
        let len = self.distances.len();
        let start: usize = q * self.k;
        let end: usize = start + self.k;
        let mut out: Vec<u32> = Vec::new();
        let mut i: usize = start;
        while i < end
            invariant
                start <= i <= end <= len,
                len == self@.distances.len(),
                out@ == self@.distances.subrange(start as int, i as int),
            decreases end - i,
        {
            out.push(self.distances[i]);
            proof {
                assert(self@.distances.subrange(start as int, i as int + 1)
                    =~= self@.distances.subrange(start as int, i as int).push(
                    self@.distances[i as int],
                ));
            }
            i += 1;
        }
        out
    }

    /// Whether every query's block is ordered by non-decreasing distance.
    ///
    /// Returns exactly the truth of [`rows_sorted`] on the held keys.
    pub fn distances_sorted(&self) -> (r: bool)
        requires
            self@.wf(),
        ensures
            r == rows_sorted(self@.distances, self@.k),
    {
        let n = self.distances.len();
        let mut i: usize = 0;
        while i + 1 < n
            invariant
                self@.wf(),
                n == self@.distances.len(),
                n == 0 ==> i == 0,
                n > 0 ==> i as int <= n as int - 1,
                forall|j: int|
                    0 <= j < i && (j + 1) % (self@.k as int) != 0 ==> #[trigger] self@.distances[j]
                        <= self@.distances[j + 1],
            decreases n - i,
        {
            if (i + 1) % self.k != 0 && self.distances[i] > self.distances[i + 1] {
                assert(!rows_sorted(self@.distances, self@.k));
                return false;
            }
            i += 1;
        }
        true
    }
}

/// Abstract contents of a [`RangeSearchResult`].
pub struct RangeView {
    /// Offset table: query `q`'s results occupy `lims[q] .. lims[q + 1]`.
    pub lims: Seq<usize>,
    /// Distance keys of all results, grouped by query.
    pub distances: Seq<u32>,
    /// Labels of all results, grouped by query.
    pub labels: Seq<i64>,
}

/// The invariant of a range-search result: the offset table starts at zero,
/// never decreases, and ends at the common length of the two data buffers.
pub open spec fn range_shape_wf(lims: Seq<usize>, distances: Seq<u32>, labels: Seq<i64>) -> bool {
    &&& lims.len() >= 1
    &&& lims[0] == 0
    &&& (forall|i: int| 0 <= i < lims.len() - 1 ==> #[trigger] lims[i] <= lims[i + 1])
    &&& lims[lims.len() - 1] == labels.len()
    &&& distances.len() == labels.len()
}

impl RangeView {
    /// The container's invariant.
    pub open spec fn wf(self) -> bool {
        range_shape_wf(self.lims, self.distances, self.labels)
    }
}

/// The offset table never decreases across any span, not just between
/// neighbours.
proof fn lemma_lims_chain(lims: Seq<usize>, i: int, j: int)
    requires
        forall|m: int| 0 <= m < lims.len() - 1 ==> #[trigger] lims[m] <= lims[m + 1],
        0 <= i <= j < lims.len(),
    ensures
        lims[i] <= lims[j],
    decreases j - i,
{
    if i < j {
        lemma_lims_chain(lims, i, j - 1);
    }
}

/// Everything stored within a radius of each query, variable-length per
/// query, owned as plain buffers copied out of the native result structure
/// before that structure is released.
pub struct RangeSearchResult {
    lims: Vec<usize>,
    distances: Vec<u32>,
    labels: Vec<i64>,
}

impl View for RangeSearchResult {
    type V = RangeView;

    closed spec fn view(&self) -> RangeView {
        RangeView { lims: self.lims@, distances: self.distances@, labels: self.labels@ }
    }
}

impl RangeSearchResult {
    /// Validate and take over the buffers copied out of a native
    /// range-search result: `Some` exactly when they have the documented
    /// shape.
    pub fn from_parts(lims: Vec<usize>, distances: Vec<u32>, labels: Vec<i64>) -> (r: Option<
        RangeSearchResult,
    >)
        ensures
            r is Some <==> range_shape_wf(lims@, distances@, labels@),
            r matches Some(c) ==> c@ == (RangeView {
                lims: lims@,
                distances: distances@,
                labels: labels@,
            }) && c@.wf(),
    {
        if lims.len() == 0 {
            return None;
        }
        if lims[0] != 0 {
            return None;
        }
        if distances.len() != labels.len() {
            return None;
        }
        if lims[lims.len() - 1] != labels.len() {
            return None;
        }
        let n = lims.len();
        let mut i: usize = 0;
        while i + 1 < n
            invariant
                n == lims@.len(),
                n >= 1,
                i as int <= n as int - 1,
                forall|j: int| 0 <= j < i ==> #[trigger] lims@[j] <= lims@[j + 1],
            decreases lims@.len() - i,
        {
            if lims[i] > lims[i + 1] {
                return None;
            }
            i += 1;
        }
        Some(RangeSearchResult { lims, distances, labels })
    }

    /// Number of queries answered.
    pub fn num_queries(&self) -> (r: usize)
        requires
            self@.wf(),
        ensures
            r == self@.lims.len() - 1,
    {
        self.lims.len() - 1
    }

    /// Total number of results over all queries.
    pub fn total_results(&self) -> (r: usize)
        requires
            self@.wf(),
        ensures
            r == self@.labels.len(),
    {
        self.labels.len()
    }

    /// Start and end offsets of one query's results in the data buffers.
    pub fn query_range(&self, q: usize) -> (r: (usize, usize))
        requires
            self@.wf(),
            q < self@.lims.len() - 1,
        ensures
            r.0 == self@.lims[q as int],
            r.1 == self@.lims[q as int + 1],
            r.0 <= r.1 <= self@.labels.len(),
    {
        proof {
            lemma_lims_chain(self@.lims, q as int + 1, self@.lims.len() as int - 1);
        }
        let n = self.lims.len();
        (self.lims[q], self.lims[q + 1])
    }

    /// The labels of one query's results.
    pub fn query_labels(&self, q: usize) -> (r: Vec<i64>)
        requires
            self@.wf(),
            q < self@.lims.len() - 1,
        ensures
            r@ == self@.labels.subrange(self@.lims[q as int] as int, self@.lims[q as int + 1] as int),
    {
        let (start, end) = self.query_range(q);
        let mut out: Vec<i64> = Vec::new();
        let mut i: usize = start;
        while i < end
            invariant
                start <= i <= end <= self@.labels.len(),
                out@ == self@.labels.subrange(start as int, i as int),
            decreases end - i,
        {
            out.push(self.labels[i]);
            proof {
                assert(self@.labels.subrange(start as int, i as int + 1) =~= self@.labels.subrange(
                    start as int,
                    i as int,
                ).push(self@.labels[i as int]));
            }
            i += 1;
        }
        out
    }

    /// The distance keys of one query's results.
    pub fn query_distances(&self, q: usize) -> (r: Vec<u32>)
        requires
            self@.wf(),
            q < self@.lims.len() - 1,
        ensures
            r@ == self@.distances.subrange(
                self@.lims[q as int] as int,
                self@.lims[q as int + 1] as int,
            ),
    {
        let (start, end) = self.query_range(q);
        let mut out: Vec<u32> = Vec::new();
        let mut i: usize = start;
        while i < end
            invariant
                start <= i <= end <= self@.distances.len(),
                out@ == self@.distances.subrange(start as int, i as int),
            decreases end - i,
        {
            out.push(self.distances[i]);
            proof {
                assert(self@.distances.subrange(start as int, i as int + 1)
                    =~= self@.distances.subrange(start as int, i as int).push(
                    self@.distances[i as int],
                ));
            }
            i += 1;
        }
        out
    }
}

} // verus!
