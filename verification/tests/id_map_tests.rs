//! Behaviour of the ID-remapping wrapper, driven by a local flat L2 scan
//! that plays the native engine's side of the reply protocol.

use faiss::index::validate_vectors;
use faiss::index::validate_vectors_with_ids;
use faiss::native::CreateOutcome;
use faiss::native::NativeOutcome;
use faiss::native::SearchReply;
use faiss::Error;
use faiss::IdMap;
use faiss::IndexImpl;
use faiss::MetricType;
use faiss::SENTINEL_LABEL;

/// The native side of the protocol for a flat L2 index under an ID map:
/// stores vectors with their external labels and answers searches by a
/// full scan, nearest first, ties kept in insertion order.
struct FlatL2Engine {
    d: usize,
    data: Vec<f32>,
    ids: Vec<i64>,
}

impl FlatL2Engine {
    fn new(d: usize) -> FlatL2Engine {
        FlatL2Engine { d, data: Vec::new(), ids: Vec::new() }
    }

    fn add_with_ids(&mut self, x: &[f32], ids: &[i64]) {
        assert_eq!(x.len(), ids.len() * self.d);
        self.data.extend_from_slice(x);
        self.ids.extend_from_slice(ids);
    }

    fn l2(&self, q: &[f32], row: usize) -> f32 {
        let mut acc = 0.0f32;
        for j in 0..self.d {
            let diff = q[j] - self.data[row * self.d + j];
            acc += diff * diff;
        }
        acc
    }

    fn search_reply(&self, query: &[f32], k: usize) -> SearchReply {
        let nq = query.len() / self.d;
        let n = self.ids.len();
        let mut distances: Vec<u32> = Vec::with_capacity(k * nq);
        let mut labels: Vec<i64> = Vec::with_capacity(k * nq);
        for q in 0..nq {
            let row_query = &query[q * self.d..(q + 1) * self.d];
            let dists: Vec<f32> = (0..n).map(|row| self.l2(row_query, row)).collect();
            let mut order: Vec<usize> = (0..n).collect();
            order.sort_by(|&a, &b| dists[a].partial_cmp(&dists[b]).unwrap());
            for slot in 0..k {
                if slot < n {
                    distances.push(dists[order[slot]].to_bits());
                    labels.push(self.ids[order[slot]]);
                } else {
                    distances.push(f32::INFINITY.to_bits());
                    labels.push(SENTINEL_LABEL);
                }
            }
        }
        SearchReply::Filled { distances, labels }
    }
}

fn flat_l2_index(handle: usize, d: u32) -> IndexImpl {
    IndexImpl::new(CreateOutcome::Created { handle }, d, MetricType::L2, true, false, true)
        .unwrap()
}

#[test]
fn flat_index_search_ids() {
    let index = flat_l2_index(1, 8);
    let some_data: &[f32] = &[
        7.5_f32, -7.5, 7.5, -7.5, 7.5, 7.5, 7.5, 7.5, -1., 1., 1., 1., 1., 1., 1., -1., 0., 0.,
        0., 1., 1., 0., 0., -1., 100., 100., 100., 100., -100., 100., 100., 100., 120., 100.,
        100., 105., -100., 100., 100., 105.,
    ];
    let some_ids: &[i64] = &[3, 6, 9, 12, 15];
    let mut engine = FlatL2Engine::new(8);
    let mut index = IdMap::new(index, CreateOutcome::Created { handle: 2 }).unwrap();
    validate_vectors_with_ids(8, some_data.len(), some_ids.len()).unwrap();
    engine.add_with_ids(some_data, some_ids);
    index.add_with_ids(&some_ids.to_vec(), NativeOutcome::Success).unwrap();
    assert_eq!(index.ntotal(), 5);

    let my_query = [0.0f32; 8];
    let nq = validate_vectors(8, my_query.len()).unwrap();
    let result = index.search(5, nq, engine.search_reply(&my_query, 5)).unwrap();
    assert_eq!(result.labels(), &vec![9, 6, 3, 12, 15]);
    assert!(result.distances().iter().all(|x| *x > 0));

    let my_query = [100.0f32; 8];
    let nq = validate_vectors(8, my_query.len()).unwrap();
    let result = index.search(5, nq, engine.search_reply(&my_query, 5)).unwrap();
    assert_eq!(result.labels(), &vec![12, 15, 3, 6, 9]);
    assert!(result.distances().iter().all(|x| *x > 0));

    let my_query = vec![
        0., 0., 0., 0., 0., 0., 0., 0., 100., 100., 100., 100., 100., 100., 100., 100.,
    ];
    let nq = validate_vectors(8, my_query.len()).unwrap();
    let result = index.search(5, nq, engine.search_reply(&my_query, 5)).unwrap();
    assert_eq!(result.labels(), &vec![9, 6, 3, 12, 15, 12, 15, 3, 6, 9]);
    assert!(result.distances().iter().all(|x| *x > 0));
}

#[test]
fn add_with_ids_refused_until_wrapped() {
    let mut index = flat_l2_index(1, 4);
    let ids: Vec<i64> = vec![5];
    assert!(matches!(
        index.add_with_ids(ids.len(), None),
        Err(Error::UnsupportedOperation)
    ));
    assert_eq!(index.ntotal(), 0);

    let mut index = IdMap::new(index, CreateOutcome::Created { handle: 2 }).unwrap();
    index.add_with_ids(&ids, NativeOutcome::Success).unwrap();
    assert_eq!(index.ntotal(), 1);
}

#[test]
fn id_map_holds_ids_in_order_added() {
    let index = flat_l2_index(1, 4);
    let mut index = IdMap::new(index, CreateOutcome::Created { handle: 2 }).unwrap();
    index.add_with_ids(&vec![42, 7], NativeOutcome::Success).unwrap();
    index.add_with_ids(&vec![9, 42, 0], NativeOutcome::Success).unwrap();
    assert_eq!(index.id_map(), &vec![42, 7, 9, 42, 0]);
    let first: Vec<i64> = index.id_map().clone();
    let second: Vec<i64> = index.id_map().clone();
    assert_eq!(first, second);
    assert_eq!(index.ntotal(), 5);
}

#[test]
fn failed_add_with_ids_leaves_state() {
    let index = flat_l2_index(1, 4);
    let mut index = IdMap::new(index, CreateOutcome::Created { handle: 2 }).unwrap();
    index.add_with_ids(&vec![1, 2], NativeOutcome::Success).unwrap();
    let r = index.add_with_ids(
        &vec![3],
        NativeOutcome::Failure { code: 1, message: String::from("not trained") },
    );
    assert!(matches!(r, Err(Error::Native { code: 1, .. })));
    assert_eq!(index.id_map(), &vec![1, 2]);
    assert_eq!(index.ntotal(), 2);
}

#[test]
fn wrap_unwrap_releases_each_handle_once() {
    let mut freed: Vec<usize> = Vec::new();
    let mut index = flat_l2_index(10, 4);
    for cycle in 0..3 {
        let wrapper = IdMap::new(index, CreateOutcome::Created { handle: 20 + cycle }).unwrap();
        let (inner, outer) = wrapper.into_inner();
        freed.push(outer.release());
        index = inner;
    }
    freed.push(index.release());
    assert_eq!(freed, vec![20, 21, 22, 10]);
    for i in 0..freed.len() {
        for j in 0..freed.len() {
            if i != j {
                assert_ne!(freed[i], freed[j]);
            }
        }
    }
}

#[test]
fn wrap_unwrap_round_trip_preserves_descriptors() {
    let index = IndexImpl::new(
        CreateOutcome::Created { handle: 7 },
        12,
        MetricType::InnerProduct,
        false,
        false,
        false,
    )
    .unwrap();
    let d = index.d();
    let ntotal = index.ntotal();
    let trained = index.is_trained();
    let metric = index.metric_type();
    let wrapper = IdMap::new(index, CreateOutcome::Created { handle: 8 }).unwrap();
    let (inner, outer) = wrapper.into_inner();
    assert_eq!(inner.d(), d);
    assert_eq!(inner.ntotal(), ntotal);
    assert_eq!(inner.is_trained(), trained);
    assert_eq!(inner.metric_type(), metric);
    assert_eq!(inner.inner_ptr(), 7);
    assert_eq!(outer.release(), 8);
}

#[test]
fn search_k_beyond_ntotal_pads_with_sentinel() {
    let index = flat_l2_index(1, 2);
    let mut engine = FlatL2Engine::new(2);
    let mut index = IdMap::new(index, CreateOutcome::Created { handle: 2 }).unwrap();
    let data: &[f32] = &[0., 0., 3., 4.];
    let ids: &[i64] = &[11, 22];
    engine.add_with_ids(data, ids);
    index.add_with_ids(&ids.to_vec(), NativeOutcome::Success).unwrap();

    let query = [0.0f32, 0.0];
    let nq = validate_vectors(2, query.len()).unwrap();
    let result = index.search(5, nq, engine.search_reply(&query, 5)).unwrap();
    assert_eq!(
        result.labels(),
        &vec![11, 22, SENTINEL_LABEL, SENTINEL_LABEL, SENTINEL_LABEL]
    );
    assert!(result.distances_sorted());
}

#[test]
fn concurrent_search_matches_exclusive_search() {
    let index = flat_l2_index(1, 2);
    let mut engine = FlatL2Engine::new(2);
    let mut index = IdMap::new(index, CreateOutcome::Created { handle: 2 }).unwrap();
    let data: &[f32] = &[1., 1., -2., 0.5, 0., 3.];
    let ids: &[i64] = &[4, 8, 16];
    engine.add_with_ids(data, ids);
    index.add_with_ids(&ids.to_vec(), NativeOutcome::Success).unwrap();
    assert!(index.reentrant_reads());

    let query = [0.25f32, 0.75];
    let nq = validate_vectors(2, query.len()).unwrap();
    let exclusive = index.search(2, nq, engine.search_reply(&query, 2)).unwrap();
    for _ in 0..4 {
        let shared = index.concurrent_search(2, nq, engine.search_reply(&query, 2)).unwrap();
        assert_eq!(shared.labels(), exclusive.labels());
        assert_eq!(shared.distances(), exclusive.distances());
    }
}

#[test]
fn wrapper_rejects_plain_add() {
    let index = flat_l2_index(1, 4);
    let mut index = IdMap::new(index, CreateOutcome::Created { handle: 2 }).unwrap();
    let r = index.add(NativeOutcome::Failure {
        code: 1,
        message: String::from("add does not make sense with this index, use add_with_ids"),
    });
    assert!(matches!(r, Err(Error::Native { code: 1, .. })));
    assert_eq!(index.ntotal(), 0);
}

#[test]
fn reset_empties_table_and_keeps_trained() {
    let index = flat_l2_index(1, 4);
    let mut index = IdMap::new(index, CreateOutcome::Created { handle: 2 }).unwrap();
    index.add_with_ids(&vec![1, 2, 3], NativeOutcome::Success).unwrap();
    index.reset(NativeOutcome::Success).unwrap();
    assert_eq!(index.ntotal(), 0);
    assert_eq!(index.id_map(), &Vec::<i64>::new());
    assert!(index.is_trained());
}

#[test]
fn train_failure_reports_native_error() {
    let index = IndexImpl::new(
        CreateOutcome::Created { handle: 1 },
        4,
        MetricType::L2,
        false,
        false,
        true,
    )
    .unwrap();
    let mut index = IdMap::new(index, CreateOutcome::Created { handle: 2 }).unwrap();
    let r = index.train(NativeOutcome::Failure {
        code: -2,
        message: String::from("insufficient training samples"),
    });
    match r {
        Err(Error::Native { code, message }) => {
            assert_eq!(code, -2);
            assert_eq!(message, "insufficient training samples");
        }
        _ => panic!("expected a native error"),
    }
    assert!(!index.is_trained());
    index.train(NativeOutcome::Success).unwrap();
    assert!(index.is_trained());
}

#[test]
fn wrap_failure_reports_native_error() {
    let index = flat_l2_index(1, 4);
    let r = IdMap::new(
        index,
        CreateOutcome::Failed { code: 3, message: String::from("out of memory") },
    );
    assert!(matches!(r, Err(Error::Native { code: 3, .. })));
}

#[test]
fn wrapper_addresses_are_observable() {
    let index = flat_l2_index(5, 4);
    let index = IdMap::new(index, CreateOutcome::Created { handle: 6 }).unwrap();
    assert_eq!(index.inner_ptr(), 6);
    assert_eq!(index.index_inner_ptr(), 5);
    assert_eq!(index.d(), 4);
    assert_eq!(index.metric_type(), MetricType::L2);
}
