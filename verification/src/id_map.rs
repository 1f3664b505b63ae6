//! The ID-remapping wrapper.
//!
//! Most index variants bind a sequential label to each vector; only some
//! accept caller-supplied labels. An [`IdMap`] grants that capability to any
//! index: it wraps the index's handle inside a native mapping structure,
//! takes over the inner handle's lifecycle atomically, and keeps the
//! externally visible label table. Unwrapping hands the inner handle back
//! symmetrically, so that across wrap, use and teardown every native
//! resource is released exactly once.

use vstd::prelude::*;

use crate::containers::AssignSearchResult;
use crate::containers::AssignView;
use crate::containers::RangeSearchResult;
use crate::containers::SearchResult;
use crate::containers::SearchView;
use crate::error::Error;
use crate::handle::Handle;
use crate::index::IndexImpl;
use crate::index::IndexView;
use crate::index::MAX_NTOTAL;
use crate::native::AssignReply;
use crate::native::CreateOutcome;
use crate::native::NativeOutcome;
use crate::native::RangeReply;
use crate::native::SearchReply;
use crate::native::status_result;

verus! {

/// Abstract state of an ID-remapping wrapper.
pub struct IdMapView {
    /// Address of the owned native mapping structure.
    pub outer: usize,
    /// Address of the wrapped index's native resource.
    pub inner: usize,
    /// Dimensionality, taken over from the wrapped index.
    pub d: nat,
    /// Distance family, taken over from the wrapped index.
    pub metric: crate::metric::MetricType,
    /// Whether the wrapped index is trained.
    pub trained: bool,
    /// The externally visible label table: position `i` holds the label of
    /// the `i`-th stored vector, so its length is the vector count.
    pub ids: Seq<i64>,
    /// Whether the mapping structure owns the inner handle. Set when the
    /// wrapper is built, cleared only in the act of unwrapping.
    pub owns_inner: bool,
    /// Whether the wrapped variant accepts caller-supplied labels natively.
    pub inner_supports_ids: bool,
    /// Whether the wrapped variant's read path is declared reentrant.
    pub reentrant: bool,
}

impl IdMapView {
    /// The vector count is the label table's length.
    pub open spec fn ntotal(self) -> nat {
        self.ids.len()
    }

    /// The wrapper's invariant: a live wrapper owns its inner handle, the
    /// two handles are distinct resources, and the table fits the engine's
    /// counting range.
    pub open spec fn wf(self) -> bool {
        &&& self.d >= 1
        &&& self.owns_inner
        &&& self.outer != self.inner
        &&& self.ids.len() <= MAX_NTOTAL
    }
}

/// The wrapper built around an index, with a fresh mapping structure at
/// `outer`: description taken over, table empty, inner handle owned.
pub open spec fn wrap_post(b: IndexView, outer: usize) -> IdMapView {
    IdMapView {
        outer,
        inner: b.handle,
        d: b.d,
        metric: b.metric,
        trained: b.trained,
        ids: Seq::empty(),
        owns_inner: true,
        inner_supports_ids: b.supports_ids,
        reentrant: b.reentrant,
    }
}

/// What unwrapping yields: the standalone inner index, carrying the
/// wrapper's current description, and the disowned outer handle.
pub open spec fn unwrap_pair(w: IdMapView) -> (IndexView, usize) {
    (
        IndexView {
            handle: w.inner,
            d: w.d,
            metric: w.metric,
            trained: w.trained,
            ntotal: w.ntotal(),
            supports_ids: w.inner_supports_ids,
            reentrant: w.reentrant,
        },
        w.outer,
    )
}

/// State after a train reply: trained exactly on success.
pub open spec fn train_post(w: IdMapView, oc: NativeOutcome) -> IdMapView {
    if oc is Success {
        IdMapView { trained: true, ..w }
    } else {
        w
    }
}

/// State after an `add_with_ids` reply: on success the given labels are
/// appended, in order, and the count grows with them; otherwise untouched.
pub open spec fn add_with_ids_post(w: IdMapView, xids: Seq<i64>, oc: NativeOutcome) -> IdMapView {
    if oc is Success {
        IdMapView { ids: w.ids + xids, ..w }
    } else {
        w
    }
}

/// State after a reset reply: table emptied exactly on success; the
/// trained flag is untouched.
pub open spec fn reset_post(w: IdMapView, oc: NativeOutcome) -> IdMapView {
    if oc is Success {
        IdMapView { ids: Seq::empty(), ..w }
    } else {
        w
    }
}

/// What the owner's single native free of the outer handle reclaims: the
/// mapping structure, and the inner resource exactly when still owned.
pub open spec fn frees_on_drop(w: IdMapView) -> Seq<usize> {
    if w.owns_inner {
        seq![w.outer, w.inner]
    } else {
        seq![w.outer]
    }
}

/// An index wrapped for arbitrary ID mapping.
///
/// The wrapper owns the native mapping structure, which in turn owns the
/// wrapped index's handle; both fall with the owner's single release,
/// unless [`IdMap::into_inner`] first transfers the inner handle back out.
pub struct IdMap {
    outer: Handle,
    inner: Handle,
    d: u32,
    metric: crate::metric::MetricType,
    trained: bool,
    ids: Vec<i64>,
    owns_inner: bool,
    inner_supports_ids: bool,
    reentrant: bool,
}

impl View for IdMap {
    type V = IdMapView;

    closed spec fn view(&self) -> IdMapView {
        IdMapView {
            outer: self.outer@,
            inner: self.inner@,
            d: self.d as nat,
            metric: self.metric,
            trained: self.trained,
            ids: self.ids@,
            owns_inner: self.owns_inner,
            inner_supports_ids: self.inner_supports_ids,
            reentrant: self.reentrant,
        }
    }
}

impl IdMap {
    /// Augment an index with arbitrary ID mapping.
    ///
    /// Consumes the index and, when the native constructor replies with a
    /// fresh mapping structure, takes over the inner handle in the same
    /// step — no state exists in which both the original value and the
    /// wrapper own it. The native constructor refuses a non-empty inner
    /// index and never hands back the inner address itself, which the
    /// shell's reply must reflect.
    pub fn new(index: IndexImpl, reply: CreateOutcome) -> (r: Result<IdMap, Error>)
        requires
            index@.wf(),
            reply matches CreateOutcome::Created { handle } ==> index@.ntotal == 0 && handle
                != index@.handle,
        ensures
            reply matches CreateOutcome::Created { handle } ==> r matches Ok(m) && m@ == wrap_post(
                index@,
                handle,
            ) && m@.wf(),
            reply matches CreateOutcome::Failed { code, message } ==> r == Err::<IdMap, Error>(
                Error::Native { code, message },
            ),
    {
        match reply {
            CreateOutcome::Created { handle } => {
                let d = index.d();
                let metric = index.metric_type();
                let trained = index.is_trained();
                let inner_supports_ids = index.supports_arbitrary_ids();
                let reentrant = index.reentrant_reads();
                let inner = index.into_handle();
                let m = IdMap {
                    outer: Handle::from_raw(handle),
                    inner,
                    d,
                    metric,
                    trained,
                    ids: Vec::new(),
                    owns_inner: true,
                    inner_supports_ids,
                    reentrant,
                };
                proof {
                    assert(m@.ids =~= Seq::<i64>::empty());
                    assert(m@ == wrap_post(index@, handle));
                }
                Ok(m)
            },
            CreateOutcome::Failed { code, message } => Err(Error::Native { code, message }),
        }
    }

    /// The label table: position `i` holds the external label of the `i`-th
    /// stored vector. A read-only view of the wrapper's state, so repeated
    /// calls without a mutation in between see the same table.
    pub fn id_map(&self) -> (r: &Vec<i64>)
        ensures
            r@ == self@.ids,
    {
        &self.ids
    }

    /// Whether the wrapped index is trained.
    pub fn is_trained(&self) -> (r: bool)
        ensures
            r == self@.trained,
    {
        self.trained
    }

    /// Number of stored vectors: always the label table's length.
    pub fn ntotal(&self) -> (r: u64)
        ensures
            r as nat == self@.ntotal(),
    {
        self.ids.len() as u64
    }

    /// Dimensionality of the stored vectors.
    pub fn d(&self) -> (r: u32)
        ensures
            r as nat == self@.d,
    {
        self.d
    }

    /// Distance family of the wrapped index.
    pub fn metric_type(&self) -> (r: crate::metric::MetricType)
        ensures
            r == self@.metric,
    {
        self.metric
    }

    /// Whether the wrapped variant's read path is declared reentrant.
    pub fn reentrant_reads(&self) -> (r: bool)
        ensures
            r == self@.reentrant,
    {
        self.reentrant
    }

    /// The mapping structure's native address — the handle every operation
    /// of the wrapper is dispatched to; ownership stays here.
    pub fn inner_ptr(&self) -> (r: usize)
        ensures
            r == self@.outer,
    {
        self.outer.as_raw()
    }

    /// The wrapped index's native address. Ownership stays with the
    /// mapping structure: building an owning value around this address
    /// without first unwrapping would set up a double release, so it is
    /// exposed for observation only; see [`IdMap::into_inner`].
    pub fn index_inner_ptr(&self) -> (r: usize)
        ensures
            r == self@.inner,
    {
        self.inner.as_raw()
    }

    /// Record a train reply: trained exactly on success, untouched on
    /// failure, the engine's verdict passed through classified.
    pub fn train(&mut self, outcome: NativeOutcome) -> (r: Result<(), Error>)
        ensures
            final(self)@ == train_post(old(self)@, outcome),
            r == status_result(outcome),
    {
        match outcome {
            NativeOutcome::Success => {
                self.trained = true;
                Ok(())
            },
            NativeOutcome::Failure { code, message } => Err(Error::Native { code, message }),
        }
    }

    /// Record a plain add reply. The native mapping structure has no label
    /// to record for a plain add and rejects the call, so the engine never
    /// reports success here; the failure is passed through classified and
    /// the state — table and count together — is untouched.
    pub fn add(&mut self, outcome: NativeOutcome) -> (r: Result<(), Error>)
        requires
            outcome !is Success,
        ensures
            final(self)@ == old(self)@,
            r == status_result(outcome),
    {
        match outcome {
            NativeOutcome::Success => vstd::pervasive::unreached(),
            NativeOutcome::Failure { code, message } => Err(Error::Native { code, message }),
        }
    }

    /// Record an `add_with_ids` reply: on success the given labels are
    /// appended to the table, in order, and the count grows with them; on
    /// failure nothing changes. The wrapper never refuses the operation —
    /// granting it is its purpose.
    pub fn add_with_ids(&mut self, xids: &Vec<i64>, outcome: NativeOutcome) -> (r: Result<
        (),
        Error,
    >)
        requires
            old(self)@.wf(),
            old(self)@.ids.len() + xids@.len() <= MAX_NTOTAL,
        ensures
            final(self)@ == add_with_ids_post(old(self)@, xids@, outcome),
            r == status_result(outcome),
            final(self)@.wf(),
    {
        match outcome {
            NativeOutcome::Success => {
                let n = xids.len();
                let mut i: usize = 0;
                while i < n
                    invariant
                        i <= n,
                        n == xids@.len(),
                        self.ids@ == old(self)@.ids + xids@.subrange(0, i as int),
                        self.outer == old(self).outer,
                        self.inner == old(self).inner,
                        self.d == old(self).d,
                        self.metric == old(self).metric,
                        self.trained == old(self).trained,
                        self.owns_inner == old(self).owns_inner,
                        self.inner_supports_ids == old(self).inner_supports_ids,
                        self.reentrant == old(self).reentrant,
                    decreases n - i,
                {
                    self.ids.push(xids[i]);
                    proof {
                        assert(old(self)@.ids + xids@.subrange(0, i as int + 1) =~= (old(self)@.ids
                            + xids@.subrange(0, i as int)).push(xids@[i as int]));
                    }
                    i += 1;
                }
                proof {
                    assert(xids@.subrange(0, n as int) =~= xids@);
                }
                Ok(())
            },
            NativeOutcome::Failure { code, message } => Err(Error::Native { code, message }),
        }
    }

    /// Record a reset reply: on success the table and the count fall to
    /// nothing together; the trained flag is untouched.
    pub fn reset(&mut self, outcome: NativeOutcome) -> (r: Result<(), Error>)
        ensures
            final(self)@ == reset_post(old(self)@, outcome),
            r == status_result(outcome),
    {
        match outcome {
            NativeOutcome::Success => {
                self.ids = Vec::new();
                proof {
                    assert(self@.ids =~= Seq::<i64>::empty());
                }
                Ok(())
            },
            NativeOutcome::Failure { code, message } => Err(Error::Native { code, message }),
        }
    }

    /// Wrap a search reply for `nq` queries with `k` slots each, dispatched
    /// to the mapping structure, which answers in external labels. The
    /// state is untouched either way; the filled buffers are handed to the
    /// caller exactly as they came, or the failure is classified. The
    /// engine orders each query's block by non-decreasing distance, ties
    /// broken in an unspecified but deterministic way;
    /// [`SearchResult::distances_sorted`] decides exactly that of any
    /// result.
    pub fn search(&mut self, k: usize, nq: usize, reply: SearchReply) -> (r: Result<
        SearchResult,
        Error,
    >)
        requires
            k >= 1,
            reply matches SearchReply::Filled { distances, labels } ==> distances@.len() == k * nq
                && labels@.len() == k * nq,
        ensures
            final(self)@ == old(self)@,
            reply matches SearchReply::Filled { distances, labels } ==> r matches Ok(res) && res@
                == (SearchView {
                nq: nq as nat,
                k: k as nat,
                distances: distances@,
                labels: labels@,
            }),
            reply matches SearchReply::Failed { code, message } ==> r == Err::<SearchResult, Error>(
                Error::Native { code, message },
            ),
    {
        match reply {
            SearchReply::Filled { distances, labels } => Ok(
                SearchResult::from_native(nq, k, distances, labels),
            ),
            SearchReply::Failed { code, message } => Err(Error::Native { code, message }),
        }
    }

    /// Wrap an assign reply, as [`IdMap::search`] does for search.
    pub fn assign(&mut self, k: usize, nq: usize, reply: AssignReply) -> (r: Result<
        AssignSearchResult,
        Error,
    >)
        requires
            k >= 1,
            reply matches AssignReply::Filled { labels } ==> labels@.len() == k * nq,
        ensures
            final(self)@ == old(self)@,
            reply matches AssignReply::Filled { labels } ==> r matches Ok(res) && res@
                == (AssignView { nq: nq as nat, k: k as nat, labels: labels@ }),
            reply matches AssignReply::Failed { code, message } ==> r == Err::<
                AssignSearchResult,
                Error,
            >(Error::Native { code, message }),
    {
        match reply {
            AssignReply::Filled { labels } => Ok(AssignSearchResult::from_native(nq, k, labels)),
            AssignReply::Failed { code, message } => Err(Error::Native { code, message }),
        }
    }

    /// Wrap a range-search reply: the validated container is handed through
    /// untouched, a failed native allocation is reported as exhaustion, and
    /// a failure status is classified. The state is untouched either way.
    pub fn range_search(&mut self, reply: RangeReply) -> (r: Result<RangeSearchResult, Error>)
        ensures
            final(self)@ == old(self)@,
            reply matches RangeReply::Filled { result } ==> r == Ok::<RangeSearchResult, Error>(
                result,
            ),
            reply matches RangeReply::AllocationFailed ==> r == Err::<RangeSearchResult, Error>(
                Error::ResourceExhausted,
            ),
            reply matches RangeReply::Failed { code, message } ==> r == Err::<
                RangeSearchResult,
                Error,
            >(Error::Native { code, message }),
    {
        match reply {
            RangeReply::Filled { result } => Ok(result),
            RangeReply::AllocationFailed => Err(Error::ResourceExhausted),
            RangeReply::Failed { code, message } => Err(Error::Native { code, message }),
        }
    }

    /// Search through the read-only facet: available only for wrappers
    /// whose variant declares a reentrant read path, takes no exclusive
    /// access, and promises exactly what the exclusive search does. That
    /// concurrent readers must not overlap a mutating call is the caller's
    /// obligation, as for every reentrant native read path.
    pub fn concurrent_search(&self, k: usize, nq: usize, reply: SearchReply) -> (r: Result<
        SearchResult,
        Error,
    >)
        requires
            self@.reentrant,
            k >= 1,
            reply matches SearchReply::Filled { distances, labels } ==> distances@.len() == k * nq
                && labels@.len() == k * nq,
        ensures
            reply matches SearchReply::Filled { distances, labels } ==> r matches Ok(res) && res@
                == (SearchView {
                nq: nq as nat,
                k: k as nat,
                distances: distances@,
                labels: labels@,
            }),
            reply matches SearchReply::Failed { code, message } ==> r == Err::<SearchResult, Error>(
                Error::Native { code, message },
            ),
    {
        match reply {
            SearchReply::Filled { distances, labels } => Ok(
                SearchResult::from_native(nq, k, distances, labels),
            ),
            SearchReply::Failed { code, message } => Err(Error::Native { code, message }),
        }
    }

    /// Assign through the read-only facet; see [`IdMap::concurrent_search`].
    pub fn concurrent_assign(&self, k: usize, nq: usize, reply: AssignReply) -> (r: Result<
        AssignSearchResult,
        Error,
    >)
        requires
            self@.reentrant,
            k >= 1,
            reply matches AssignReply::Filled { labels } ==> labels@.len() == k * nq,
        ensures
            reply matches AssignReply::Filled { labels } ==> r matches Ok(res) && res@
                == (AssignView { nq: nq as nat, k: k as nat, labels: labels@ }),
            reply matches AssignReply::Failed { code, message } ==> r == Err::<
                AssignSearchResult,
                Error,
            >(Error::Native { code, message }),
    {
        match reply {
            AssignReply::Filled { labels } => Ok(AssignSearchResult::from_native(nq, k, labels)),
            AssignReply::Failed { code, message } => Err(Error::Native { code, message }),
        }
    }

    /// Range search through the read-only facet; see
    /// [`IdMap::concurrent_search`].
    pub fn concurrent_range_search(&self, reply: RangeReply) -> (r: Result<
        RangeSearchResult,
        Error,
    >)
        requires
            self@.reentrant,
        ensures
            reply matches RangeReply::Filled { result } ==> r == Ok::<RangeSearchResult, Error>(
                result,
            ),
            reply matches RangeReply::AllocationFailed ==> r == Err::<RangeSearchResult, Error>(
                Error::ResourceExhausted,
            ),
            reply matches RangeReply::Failed { code, message } ==> r == Err::<
                RangeSearchResult,
                Error,
            >(Error::Native { code, message }),
    {
        match reply {
            RangeReply::Filled { result } => Ok(result),
            RangeReply::AllocationFailed => Err(Error::ResourceExhausted),
            RangeReply::Failed { code, message } => Err(Error::Native { code, message }),
        }
    }

    /// Discard the ID map, recovering the standalone inner index.
    ///
    /// The one step in which the mapping structure disowns the inner
    /// handle: the returned index is its sole owner, and the returned
    /// outer handle — now owning only the bare mapping structure — is what
    /// the caller passes to the native free.
    pub fn into_inner(self) -> (r: (IndexImpl, Handle))
        requires
            self@.wf(),
        ensures
            r.0@ == unwrap_pair(self@).0,
            r.1@ == unwrap_pair(self@).1,
            r.0@.wf(),
    {
        let disowned = IdMap { owns_inner: false, ..self };
        let ntotal = disowned.ids.len() as u64;
        let IdMap { outer, inner, d, metric, trained, inner_supports_ids, reentrant, .. } =
            disowned;
        let ix = IndexImpl::from_inner_ptr(
            inner,
            d,
            metric,
            trained,
            ntotal,
            inner_supports_ids,
            reentrant,
        );
        (ix, outer)
    }

    /// Give up the wrapper for teardown: the returned handle carries the
    /// one native free the owner performs, which reclaims everything
    /// [`frees_on_drop`] names — the mapping structure and, still owned,
    /// the inner resource with it.
    pub fn release(self) -> (r: Handle)
        ensures
            r@ == self@.outer,
    {
        let IdMap { outer, .. } = self;
        outer
    }
}

} // verus!
