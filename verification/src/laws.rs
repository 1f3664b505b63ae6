//! Properties that hold across the operations, stated and proved once over
//! the abstract states the operation contracts are written in.

use vstd::prelude::*;

use crate::error::Error;
use crate::id_map;
use crate::id_map::IdMapView;
use crate::index;
use crate::index::IndexView;
use crate::native::NativeOutcome;
use crate::native::status_result;

verus! {

/// Wrapping grants `add_with_ids`. On any standalone index whose variant
/// lacks native ID support, `add_with_ids` fails with
/// `UnsupportedOperation` — whatever reply the shell could supply — and
/// leaves the index untouched. On a wrapper, the same call with a success
/// reply returns `Ok` and grows the vector count by exactly the number of
/// labels added.
pub proof fn lemma_wrapper_grants_add_with_ids(
    b: IndexView,
    oc_b: Option<NativeOutcome>,
    w: IdMapView,
    xids: Seq<i64>,
)
    requires
        !b.supports_ids,
    ensures
        index::add_with_ids_result(b, oc_b) == Err::<(), Error>(Error::UnsupportedOperation),
        index::add_with_ids_post(b, xids.len(), oc_b) == b,
        status_result(NativeOutcome::Success) == Ok::<(), Error>(()),
        id_map::add_with_ids_post(w, xids, NativeOutcome::Success).ntotal() == w.ntotal()
            + xids.len(),
{
}

/// A successful `add_with_ids` appends exactly the given labels to the
/// table, in order; in particular a table filled from empty holds exactly
/// what was added. Any other reply leaves the wrapper — table and count —
/// untouched.
pub proof fn lemma_add_with_ids_records_ids(w: IdMapView, xids: Seq<i64>, oc: NativeOutcome)
    ensures
        id_map::add_with_ids_post(w, xids, NativeOutcome::Success).ids == w.ids + xids,
        w.ids == Seq::<i64>::empty() ==> id_map::add_with_ids_post(
            w,
            xids,
            NativeOutcome::Success,
        ).ids == xids,
        oc !is Success ==> id_map::add_with_ids_post(w, xids, oc) == w,
{
    assert(Seq::<i64>::empty() + xids =~= xids);
}

/// Unwrapping and then tearing both owners down releases each native
/// resource exactly once: the recovered index owes one free of the inner
/// handle, the returned outer handle owes one free of the mapping
/// structure, and the two addresses are distinct. Tearing a live wrapper
/// down without unwrapping releases the same two addresses, also exactly
/// once each.
pub proof fn lemma_unwrap_then_release_frees_once(w: IdMapView)
    requires
        w.wf(),
    ensures
        ({
            let (ix, outer) = id_map::unwrap_pair(w);
            let freed = index::frees_on_drop(ix) + seq![outer];
            &&& freed =~= seq![w.inner, w.outer]
            &&& freed.no_duplicates()
        }),
        id_map::frees_on_drop(w) == seq![w.outer, w.inner],
        id_map::frees_on_drop(w).no_duplicates(),
{
    let (ix, outer) = id_map::unwrap_pair(w);
    let freed = index::frees_on_drop(ix) + seq![outer];
    assert(freed =~= seq![w.inner, w.outer]);
    assert(freed[0] == w.inner && freed[1] == w.outer);
    assert(freed.no_duplicates()) by {
        assert(forall|i: int, j: int|
            0 <= i < freed.len() && 0 <= j < freed.len() && i != j ==> freed[i] != freed[j]);
    };
    let dropped = id_map::frees_on_drop(w);
    assert(dropped[0] == w.outer && dropped[1] == w.inner);
    assert(dropped.no_duplicates()) by {
        assert(forall|i: int, j: int|
            0 <= i < dropped.len() && 0 <= j < dropped.len() && i != j ==> dropped[i]
                != dropped[j]);
    };
}

/// Round trip: wrapping an index and unwrapping at once yields an index
/// with the original state entire — same handle, dimensionality, vector
/// count, trained flag, metric and capabilities — and hands the mapping
/// structure's own handle back for its free.
pub proof fn lemma_wrap_unwrap_roundtrip(b: IndexView, outer: usize)
    requires
        b.ntotal == 0,
    ensures
        id_map::unwrap_pair(id_map::wrap_post(b, outer)).0 == b,
        id_map::unwrap_pair(id_map::wrap_post(b, outer)).1 == outer,
{
}

} // verus!
