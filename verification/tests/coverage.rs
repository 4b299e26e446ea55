use simics_fuzz::coverage::{bucket, class_of, same_signature, CoverageHistory, CoverageMap};
use simics_fuzz::messages::TraceMode;

#[test]
fn bucket_classes_follow_the_table() {
    assert_eq!(bucket(0), 0);
    assert_eq!(bucket(1), 1);
    assert_eq!(bucket(2), 2);
    assert_eq!(bucket(3), 4);
    assert_eq!(bucket(4), 8);
    assert_eq!(bucket(7), 8);
    assert_eq!(bucket(8), 16);
    assert_eq!(bucket(15), 16);
    assert_eq!(bucket(16), 32);
    assert_eq!(bucket(31), 32);
    assert_eq!(bucket(32), 64);
    assert_eq!(bucket(127), 64);
    assert_eq!(bucket(128), 128);
    assert_eq!(bucket(255), 128);
}

#[test]
fn every_bucket_has_at_most_one_bit() {
    for count in 0..=255u8 {
        assert!(bucket(count).count_ones() <= 1);
        assert_eq!(bucket(count) == 0, count == 0);
    }
}

#[test]
fn once_mode_is_hit_or_not() {
    assert_eq!(class_of(0, TraceMode::Once), 0);
    assert_eq!(class_of(1, TraceMode::Once), 1);
    assert_eq!(class_of(200, TraceMode::Once), 1);
    assert_eq!(class_of(200, TraceMode::HitCount), 128);
}

#[test]
fn new_map_is_all_zero() {
    let map = CoverageMap::new(4096);
    assert_eq!(map.len(), 4096);
    assert!(map.counters().iter().all(|c| *c == 0));
    assert_eq!(map.counter(4095), Some(0));
    assert_eq!(map.counter(4096), None);
}

#[test]
fn record_counts_and_saturates() {
    let mut map = CoverageMap::new(8);
    map.record(3);
    map.record(3);
    map.record(11);
    assert_eq!(map.counter(3), Some(3));
    for _ in 0..300 {
        map.record(5);
    }
    assert_eq!(map.counter(5), Some(255));
    assert_eq!(map.len(), 8);
}

#[test]
fn record_on_an_empty_map_changes_nothing() {
    let mut map = CoverageMap::new(0);
    map.record(9);
    assert_eq!(map.len(), 0);
}

#[test]
fn clear_keeps_the_length() {
    let mut map = CoverageMap::from_counters(vec![1, 2, 3, 4]);
    map.clear();
    assert_eq!(map.counters(), &vec![0, 0, 0, 0]);
}

#[test]
fn classified_replaces_each_counter() {
    let map = CoverageMap::from_counters(vec![0, 1, 3, 5, 200]);
    assert_eq!(map.classified(TraceMode::HitCount).counters(), &vec![0, 1, 4, 8, 128]);
    assert_eq!(map.classified(TraceMode::Once).counters(), &vec![0, 1, 1, 1, 1]);
    assert_eq!(map.counters(), &vec![0, 1, 3, 5, 200]);
}

#[test]
fn signature_lists_the_nonzero_counters() {
    let map = CoverageMap::from_counters(vec![0, 4, 0, 0, 9, 0]);
    assert_eq!(map.signature(), vec![(1usize, 4u8), (4usize, 9u8)]);
    assert_eq!(CoverageMap::new(5).signature(), vec![]);
}

#[test]
fn equal_maps_have_equal_signatures() {
    let a = CoverageMap::from_counters(vec![0, 4, 0, 1]);
    let b = CoverageMap::from_counters(vec![0, 4, 0, 1]);
    let c = CoverageMap::from_counters(vec![0, 4, 1, 0]);
    assert!(same_signature(&a.signature(), &b.signature()));
    assert!(!same_signature(&a.signature(), &c.signature()));
    assert!(!same_signature(&a.signature(), &CoverageMap::new(4).signature()));
}

#[test]
fn novelties_count_new_classes() {
    let mut history = CoverageHistory::new(4);
    let now = CoverageMap::from_counters(vec![1, 0, 8, 0]);
    assert_eq!(history.novelties(&now), Some(2));
    assert!(history.merge(&now));
    assert_eq!(history.novelties(&now), Some(0));
    let more = CoverageMap::from_counters(vec![1, 2, 16, 0]);
    assert_eq!(history.novelties(&more), Some(2));
    let less = CoverageMap::from_counters(vec![0, 0, 8, 0]);
    assert_eq!(history.novelties(&less), Some(0));
}

#[test]
fn history_refuses_a_map_of_another_length() {
    let mut history = CoverageHistory::new(4);
    let now = CoverageMap::from_counters(vec![1, 1, 1]);
    assert_eq!(history.novelties(&now), None);
    assert!(!history.merge(&now));
    assert_eq!(history.len(), 4);
    assert_eq!(history.novelties(&CoverageMap::new(4)), Some(0));
}

#[test]
fn reading_a_map_leaves_it_as_it_was() {
    let map = CoverageMap::from_counters(vec![3, 0, 200]);
    let before = map.counters().clone();
    let _ = map.signature();
    let _ = map.classified(TraceMode::HitCount);
    let history = CoverageHistory::new(3);
    let _ = history.novelties(&map);
    assert_eq!(map.counters(), &before);
    assert_eq!(map.len(), 3);
}
