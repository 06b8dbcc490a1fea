use cpu_monitor::sampler::Sampler;
use cpu_monitor::query::{handle_query, handle_query_body};
use cpu_monitor::snapshot::{CpuSnapshot, MAX_CENTI_PERCENT};
use cpu_monitor::store::SharedState;

#[test]
fn snapshot_keeps_length_and_order() {
    let readings: Vec<u32> = vec![0, 1250, 4000, 10000];
    let s = CpuSnapshot::from_readings(&readings);
    assert_eq!(s.core_count(), 4);
    assert_eq!(s.value_at(0), 0);
    assert_eq!(s.value_at(1), 1250);
    assert_eq!(s.value_at(2), 4000);
    assert_eq!(s.value_at(3), 10000);
}

#[test]
fn snapshot_clamps_out_of_range_readings() {
    let readings: Vec<u32> = vec![10001, u32::MAX, 9999];
    let s = CpuSnapshot::from_readings(&readings);
    assert_eq!(s.core_count(), 3);
    assert_eq!(s.value_at(0), MAX_CENTI_PERCENT);
    assert_eq!(s.value_at(1), MAX_CENTI_PERCENT);
    assert_eq!(s.value_at(2), 9999);
}

#[test]
fn snapshot_of_zero_cores_is_empty() {
    let readings: Vec<u32> = vec![];
    let s = CpuSnapshot::from_readings(&readings);
    assert_eq!(s.core_count(), 0);
    let e = CpuSnapshot::empty();
    assert_eq!(e.core_count(), 0);
}

#[test]
fn duplicate_is_equal_and_independent() {
    let s = CpuSnapshot::from_readings(&vec![500, 600]);
    let d = s.duplicate();
    assert_eq!(d.core_count(), 2);
    assert_eq!(d.value_at(0), 500);
    assert_eq!(d.value_at(1), 600);
}

#[test]
fn get_after_set_reads_the_write() {
    let mut store = SharedState::new();
    let s = CpuSnapshot::from_readings(&vec![1250, 4000]);
    store.set(s);
    let r = store.get();
    assert_eq!(r.core_count(), 2);
    assert_eq!(r.value_at(0), 1250);
    assert_eq!(r.value_at(1), 4000);
}

#[test]
fn reads_never_mix_two_snapshots() {
    let mut store = SharedState::new();
    store.set(CpuSnapshot::from_readings(&vec![1250, 4000]));
    let first = handle_query(&store);
    assert_eq!((first.value_at(0), first.value_at(1)), (1250, 4000));
    store.set(CpuSnapshot::from_readings(&vec![1300, 4150]));
    let second = handle_query(&store);
    assert_eq!((second.value_at(0), second.value_at(1)), (1300, 4150));
}

#[test]
fn a_copy_does_not_change_when_the_store_moves_on() {
    let mut store = SharedState::new();
    store.set(CpuSnapshot::from_readings(&vec![700]));
    let held = store.get();
    store.set(CpuSnapshot::from_readings(&vec![900]));
    assert_eq!(held.value_at(0), 700);
    assert_eq!(store.get().value_at(0), 900);
}

#[test]
fn query_before_first_sample_is_empty_array() {
    let store = SharedState::new();
    let snapshot = handle_query(&store);
    assert_eq!(snapshot.core_count(), 0);
    assert_eq!(handle_query_body(&store), "[]");
}

#[test]
fn publish_readings_replaces_the_store_content() {
    let mut store = SharedState::new();
    let sampler = Sampler::new(250);
    sampler.publish_readings(&mut store, &vec![100, 20000]);
    let r = store.get();
    assert_eq!(r.core_count(), 2);
    assert_eq!(r.value_at(0), 100);
    assert_eq!(r.value_at(1), MAX_CENTI_PERCENT);
}

#[test]
fn sleep_interval_is_the_larger_cadence() {
    let slow = Sampler::new(250);
    assert_eq!(slow.sleep_interval_ms(200), 250);
    let fast = Sampler::new(50);
    assert_eq!(fast.sleep_interval_ms(200), 200);
    let exact = Sampler::new(200);
    assert_eq!(exact.sleep_interval_ms(200), 200);
}
