use pimad_edge::second_layer::database::domain::{sort_by_vectors, BatchKind, TableDataVector, Telemetry};

type Buffer = TableDataVector<u32, u32, u32, u32>;

#[test]
fn telemetry_is_sorted_by_kind() {
    let mut b: Buffer = TableDataVector::new(2);
    assert!(b.is_empty());
    sort_by_vectors(Telemetry::Measurement(1), &mut b);
    sort_by_vectors(Telemetry::AlertTh(7), &mut b);
    sort_by_vectors(Telemetry::Other, &mut b);
    assert_eq!(b.measurement, vec![1]);
    assert_eq!(b.alert_th, vec![7]);
    assert!(b.monitor.is_empty() && b.alert_air.is_empty());
    assert!(!b.is_empty());
    assert!(!b.is_some_vector_full());
    sort_by_vectors(Telemetry::Measurement(2), &mut b);
    assert!(b.is_some_vector_full());
    b.clear();
    assert!(b.is_empty());
    assert_eq!(b.batch_size, 2);
}

#[test]
fn uploads_follow_the_non_empty_vectors_in_order() {
    let b: Buffer = TableDataVector::new_pop(vec![1], vec![], vec![3], vec![4], 10);
    assert_eq!(b.upload_kinds(), vec![BatchKind::Measurement, BatchKind::Monitor, BatchKind::AlertTh]);
    let e: Buffer = TableDataVector::new(10);
    assert!(e.upload_kinds().is_empty());
}
