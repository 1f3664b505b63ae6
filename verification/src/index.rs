//! Standalone index values and the operation set over them.
//!
//! An [`IndexImpl`] is the exclusive owner of one native index resource. Its
//! descriptive state — dimensionality, metric, trained flag, vector count —
//! and its declared capabilities (arbitrary-ID support, reentrant read path)
//! are recorded here, and every operation states how that state and the
//! caller-visible result follow from the engine's reply.

use vstd::prelude::*;

use crate::containers::AssignSearchResult;
use crate::containers::AssignView;
use crate::containers::RangeSearchResult;
use crate::containers::SearchResult;
use crate::containers::SearchView;
use crate::error::Error;
use crate::handle::Handle;
use crate::native::AssignReply;
use crate::native::CreateOutcome;
use crate::native::NativeOutcome;
use crate::native::RangeReply;
use crate::native::SearchReply;
use crate::native::status_result;

verus! {

/// Largest vector count the native engine can report (its counts are signed
/// 64-bit).
pub const MAX_NTOTAL: u64 = 0x7fff_ffff_ffff_ffff;

/// Abstract state of a standalone index.
pub struct IndexView {
    /// Address of the owned native resource.
    pub handle: usize,
    /// Dimensionality of the stored vectors.
    pub d: nat,
    /// Distance family the index was built with.
    pub metric: crate::metric::MetricType,
    /// Whether the variant's training step has completed (or was never
    /// needed).
    pub trained: bool,
    /// Number of stored vectors.
    pub ntotal: nat,
    /// Whether the variant accepts caller-supplied labels natively.
    pub supports_ids: bool,
    /// Whether the variant's native read path is declared reentrant.
    pub reentrant: bool,
}

impl IndexView {
    /// Validity of the descriptive state.
    pub open spec fn wf(self) -> bool {
        self.d >= 1 && self.ntotal <= MAX_NTOTAL
    }
}

/// State after a train reply: trained exactly on success.
pub open spec fn train_post(pre: IndexView, oc: NativeOutcome) -> IndexView {
    if oc is Success {
        IndexView { trained: true, ..pre }
    } else {
        pre
    }
}

/// State after an add reply for `n` vectors: grown exactly on success.
pub open spec fn add_post(pre: IndexView, n: nat, oc: NativeOutcome) -> IndexView {
    if oc is Success {
        IndexView { ntotal: pre.ntotal + n, ..pre }
    } else {
        pre
    }
}

/// What `add_with_ids` returns on a standalone index: refusal on a variant
/// without native ID support, the engine's verdict otherwise.
pub open spec fn add_with_ids_result(pre: IndexView, oc: Option<NativeOutcome>) -> Result<
    (),
    Error,
> {
    if !pre.supports_ids {
        Err(Error::UnsupportedOperation)
    } else {
        match oc {
            Some(o) => status_result(o),
            None => Err(Error::UnsupportedOperation),
        }
    }
}

/// State after an `add_with_ids` reply: grown exactly when the variant
/// supports arbitrary IDs and the engine succeeded.
pub open spec fn add_with_ids_post(pre: IndexView, n: nat, oc: Option<NativeOutcome>) -> IndexView {
    if pre.supports_ids && oc matches Some(NativeOutcome::Success) {
        IndexView { ntotal: pre.ntotal + n, ..pre }
    } else {
        pre
    }
}

/// State after a reset reply: emptied exactly on success; the trained flag
/// is untouched.
pub open spec fn reset_post(pre: IndexView, oc: NativeOutcome) -> IndexView {
    if oc is Success {
        IndexView { ntotal: 0, ..pre }
    } else {
        pre
    }
}

/// The one native free a standalone index owes: its own handle.
pub open spec fn frees_on_drop(v: IndexView) -> Seq<usize> {
    seq![v.handle]
}

/// Check that a flat vector buffer length is whole: `Ok` with the vector
/// count exactly when the length is a multiple of the dimensionality.
pub fn validate_vectors(d: u32, x_len: usize) -> (r: Result<usize, Error>)
    requires
        d >= 1,
    ensures
        x_len as int % d as int == 0 ==> r == Ok::<usize, Error>((x_len as int / d as int) as usize),
        x_len as int % d as int != 0 ==> r == Err::<usize, Error>(Error::DimensionMismatch),
{
    let du = d as usize;
    if x_len % du == 0 {
        Ok(x_len / du)
    } else {
        Err(Error::DimensionMismatch)
    }
}

/// Check a buffer together with its labels: `Ok` with the vector count
/// exactly when the buffer is whole and carries one label per vector.
pub fn validate_vectors_with_ids(d: u32, x_len: usize, ids_len: usize) -> (r: Result<usize, Error>)
    requires
        d >= 1,
    ensures
        x_len as int % d as int == 0 && ids_len == x_len as int / d as int ==> r == Ok::<
            usize,
            Error,
        >(ids_len),
        !(x_len as int % d as int == 0 && ids_len == x_len as int / d as int) ==> r == Err::<
            usize,
            Error,
        >(Error::DimensionMismatch),
{
    let du = d as usize;
    if x_len % du == 0 && ids_len == x_len / du {
        Ok(ids_len)
    } else {
        Err(Error::DimensionMismatch)
    }
}

/// Exclusive owner of one native index resource, with the variant's
/// declared description and capabilities.
pub struct IndexImpl {
    handle: Handle,
    d: u32,
    metric: crate::metric::MetricType,
    trained: bool,
    ntotal: u64,
    supports_ids: bool,
    reentrant: bool,
}

impl View for IndexImpl {
    type V = IndexView;

    closed spec fn view(&self) -> IndexView {
        IndexView {
            handle: self.handle@,
            d: self.d as nat,
            metric: self.metric,
            trained: self.trained,
            ntotal: self.ntotal as nat,
            supports_ids: self.supports_ids,
            reentrant: self.reentrant,
        }
    }
}

impl IndexImpl {
    /// Take ownership of a native index a constructor entry point just
    /// built, recording the variant's description and declared
    /// capabilities. The engine's failure is passed through classified.
    pub fn new(
        reply: CreateOutcome,
        d: u32,
        metric: crate::metric::MetricType,
        trained: bool,
        supports_ids: bool,
        reentrant: bool,
    ) -> (r: Result<IndexImpl, Error>)
        requires
            d >= 1,
        ensures
            reply matches CreateOutcome::Created { handle } ==> r matches Ok(ix) && ix@
                == (IndexView {
                handle,
                d: d as nat,
                metric,
                trained,
                ntotal: 0,
                supports_ids,
                reentrant,
            }) && ix@.wf(),
            reply matches CreateOutcome::Failed { code, message } ==> r == Err::<IndexImpl, Error>(
                Error::Native { code, message },
            ),
    {
        match Handle::acquire(reply) {
            Ok(handle) => Ok(
                IndexImpl { handle, d, metric, trained, ntotal: 0, supports_ids, reentrant },
            ),
            Err(e) => Err(e),
        }
    }

    /// Materialize an index value around a handle whose resource already
    /// exists, as when an owning wrapper hands the inner index back.
    pub fn from_inner_ptr(
        handle: Handle,
        d: u32,
        metric: crate::metric::MetricType,
        trained: bool,
        ntotal: u64,
        supports_ids: bool,
        reentrant: bool,
    ) -> (r: IndexImpl)
        requires
            d >= 1,
            ntotal <= MAX_NTOTAL,
        ensures
            r@ == (IndexView {
                handle: handle@,
                d: d as nat,
                metric,
                trained,
                ntotal: ntotal as nat,
                supports_ids,
                reentrant,
            }),
            r@.wf(),
    {
        IndexImpl { handle, d, metric, trained, ntotal, supports_ids, reentrant }
    }

    /// Whether the variant's training step has completed.
    pub fn is_trained(&self) -> (r: bool)
        ensures
            r == self@.trained,
    {
        self.trained
    }

    /// Number of stored vectors.
    pub fn ntotal(&self) -> (r: u64)
        ensures
            r as nat == self@.ntotal,
    {
        self.ntotal
    }

    /// Dimensionality of the stored vectors.
    pub fn d(&self) -> (r: u32)
        ensures
            r as nat == self@.d,
    {
        self.d
    }

    /// Distance family the index was built with.
    pub fn metric_type(&self) -> (r: crate::metric::MetricType)
        ensures
            r == self@.metric,
    {
        self.metric
    }

    /// Whether the variant accepts caller-supplied labels natively.
    pub fn supports_arbitrary_ids(&self) -> (r: bool)
        ensures
            r == self@.supports_ids,
    {
        self.supports_ids
    }

    /// Whether the variant's native read path is declared reentrant.
    pub fn reentrant_reads(&self) -> (r: bool)
        ensures
            r == self@.reentrant,
    {
        self.reentrant
    }

    /// The native address, for the shell's calls; ownership stays here.
    pub fn inner_ptr(&self) -> (r: usize)
        ensures
            r == self@.handle,
    {
        self.handle.as_raw()
    }

    /// Record a train reply: trained exactly on success, untouched on
    /// failure, the engine's verdict passed through classified.
    pub fn train(&mut self, outcome: NativeOutcome) -> (r: Result<(), Error>)
        ensures
            final(self)@ == train_post(old(self)@, outcome),
            r == status_result(outcome),
    {
        match outcome {
            NativeOutcome::Success => {
                self.trained = true;
                Ok(())
            },
            NativeOutcome::Failure { code, message } => Err(Error::Native { code, message }),
        }
    }

    /// Record an add reply for `n` vectors: grown exactly on success,
    /// untouched on failure.
    pub fn add(&mut self, n: usize, outcome: NativeOutcome) -> (r: Result<(), Error>)
        requires
            old(self)@.ntotal + n <= MAX_NTOTAL,
        ensures
            final(self)@ == add_post(old(self)@, n as nat, outcome),
            r == status_result(outcome),
    {
        match outcome {
            NativeOutcome::Success => {
                self.ntotal = self.ntotal + n as u64;
                Ok(())
            },
            NativeOutcome::Failure { code, message } => Err(Error::Native { code, message }),
        }
    }

    /// `add_with_ids` on a standalone index: refused outright on a variant
    /// without native ID support — the precise gap the ID-remapping wrapper
    /// closes — and otherwise decided by the engine's reply, which the
    /// shell supplies exactly when the variant supports the call.
    pub fn add_with_ids(&mut self, n: usize, outcome: Option<NativeOutcome>) -> (r: Result<
        (),
        Error,
    >)
        requires
            old(self)@.ntotal + n <= MAX_NTOTAL,
            old(self)@.supports_ids <==> outcome is Some,
        ensures
            final(self)@ == add_with_ids_post(old(self)@, n as nat, outcome),
            r == add_with_ids_result(old(self)@, outcome),
    {
        if !self.supports_ids {
            return Err(Error::UnsupportedOperation);
        }
        match outcome {
            Some(NativeOutcome::Success) => {
                self.ntotal = self.ntotal + n as u64;
                Ok(())
            },
            Some(NativeOutcome::Failure { code, message }) => Err(Error::Native { code, message }),
            None => Err(Error::UnsupportedOperation),
        }
    }

    /// Record a reset reply: emptied exactly on success; the trained flag
    /// is untouched.
    pub fn reset(&mut self, outcome: NativeOutcome) -> (r: Result<(), Error>)
        ensures
            final(self)@ == reset_post(old(self)@, outcome),
            r == status_result(outcome),
    {
        match outcome {
            NativeOutcome::Success => {
                self.ntotal = 0;
                Ok(())
            },
            NativeOutcome::Failure { code, message } => Err(Error::Native { code, message }),
        }
    }

    /// Wrap a search reply for `nq` queries with `k` slots each. The state
    /// is untouched either way; the reply's buffers are handed to the
    /// caller exactly as filled, or the engine's failure is classified.
    pub fn search(&mut self, k: usize, nq: usize, reply: SearchReply) -> (r: Result<
        SearchResult,
        Error,
    >)
        requires
            k >= 1,
            reply matches SearchReply::Filled { distances, labels } ==> distances@.len() == k * nq
                && labels@.len() == k * nq,
        ensures
            final(self)@ == old(self)@,
            reply matches SearchReply::Filled { distances, labels } ==> r matches Ok(res) && res@
                == (SearchView {
                nq: nq as nat,
                k: k as nat,
                distances: distances@,
                labels: labels@,
            }),
            reply matches SearchReply::Failed { code, message } ==> r == Err::<SearchResult, Error>(
                Error::Native { code, message },
            ),
    {
        match reply {
            SearchReply::Filled { distances, labels } => Ok(
                SearchResult::from_native(nq, k, distances, labels),
            ),
            SearchReply::Failed { code, message } => Err(Error::Native { code, message }),
        }
    }

    /// Wrap an assign reply, as [`IndexImpl::search`] does for search.
    pub fn assign(&mut self, k: usize, nq: usize, reply: AssignReply) -> (r: Result<
        AssignSearchResult,
        Error,
    >)
        requires
            k >= 1,
            reply matches AssignReply::Filled { labels } ==> labels@.len() == k * nq,
        ensures
            final(self)@ == old(self)@,
            reply matches AssignReply::Filled { labels } ==> r matches Ok(res) && res@
                == (AssignView { nq: nq as nat, k: k as nat, labels: labels@ }),
            reply matches AssignReply::Failed { code, message } ==> r == Err::<
                AssignSearchResult,
                Error,
            >(Error::Native { code, message }),
    {
        match reply {
            AssignReply::Filled { labels } => Ok(AssignSearchResult::from_native(nq, k, labels)),
            AssignReply::Failed { code, message } => Err(Error::Native { code, message }),
        }
    }

    /// Wrap a range-search reply: the validated container is handed
    /// through untouched, a failed native allocation is reported as
    /// exhaustion, and a failure status is classified. The state is
    /// untouched either way.
    pub fn range_search(&mut self, reply: RangeReply) -> (r: Result<RangeSearchResult, Error>)
        ensures
            final(self)@ == old(self)@,
            reply matches RangeReply::Filled { result } ==> r == Ok::<RangeSearchResult, Error>(
                result,
            ),
            reply matches RangeReply::AllocationFailed ==> r == Err::<RangeSearchResult, Error>(
                Error::ResourceExhausted,
            ),
            reply matches RangeReply::Failed { code, message } ==> r == Err::<
                RangeSearchResult,
                Error,
            >(Error::Native { code, message }),
    {
        match reply {
            RangeReply::Filled { result } => Ok(result),
            RangeReply::AllocationFailed => Err(Error::ResourceExhausted),
            RangeReply::Failed { code, message } => Err(Error::Native { code, message }),
        }
    }

    /// Hand over the owned handle, dissolving this value without a free, as
    /// when a wrapper takes the resource over.
    pub fn into_handle(self) -> (r: Handle)
        ensures
            r@ == self@.handle,
    {
        self.handle
    }

    /// Give up the index for teardown: the returned address is what the
    /// owner passes to the single native free ([`frees_on_drop`]).
    pub fn release(self) -> (r: usize)
        ensures
            r == self@.handle,
    {
        self.handle.release()
    }
}

} // verus!
