use kv_bench::store::{RequestOutcome, SampleStore};

#[test]
fn new_store_is_unused() {
    let store = SampleStore::new(3);
    assert_eq!(store.capacity(), 3);
    assert_eq!(store.completed(), 0);
    assert_eq!(store.errors(), 0);
    assert_eq!(store.successes(), 0);
    assert!(!store.is_complete());
    assert_eq!(store.slot(0), 0);
    assert_eq!(store.slot(2), 0);
    assert_eq!(store.effective_samples(), Vec::<u64>::new());
}

#[test]
fn store_without_slots_is_complete() {
    let store = SampleStore::new(0);
    assert!(store.is_complete());
    assert_eq!(store.effective_samples(), Vec::<u64>::new());
}

#[test]
fn record_hands_out_consecutive_slots() {
    let mut store = SampleStore::new(5);
    let mut seen: Vec<usize> = Vec::new();
    let mut k: u64 = 0;
    while k < 5 {
        let outcome = if k % 2 == 0 {
            RequestOutcome::Success(100 + k)
        } else {
            RequestOutcome::Failure
        };
        seen.push(store.record(outcome));
        k += 1;
    }
    assert_eq!(seen, vec![0, 1, 2, 3, 4]);
    assert!(store.is_complete());
    assert_eq!(store.completed(), 5);
    assert_eq!(store.errors(), 2);
    assert_eq!(store.successes(), 3);
    assert_eq!(store.slot(0), 100);
    assert_eq!(store.slot(1), 0);
    assert_eq!(store.slot(2), 102);
    assert_eq!(store.slot(3), 0);
    assert_eq!(store.slot(4), 104);
    assert_eq!(store.effective_samples(), vec![100, 102, 104]);
}

#[test]
fn counters_agree_after_every_record() {
    let mut store = SampleStore::new(8);
    let mut k: u64 = 0;
    while k < 8 {
        let outcome = if k % 3 == 0 {
            RequestOutcome::Failure
        } else {
            RequestOutcome::Success(k)
        };
        store.record(outcome);
        assert_eq!(store.completed(), (k + 1) as usize);
        assert_eq!(store.successes() + store.errors(), store.completed());
        k += 1;
    }
}

#[test]
fn record_beyond_capacity_stores_nothing() {
    let mut store = SampleStore::new(1);
    assert_eq!(store.record(RequestOutcome::Success(5)), 0);
    assert_eq!(store.record(RequestOutcome::Success(6)), 1);
    assert_eq!(store.record(RequestOutcome::Failure), 2);
    assert_eq!(store.capacity(), 1);
    assert_eq!(store.completed(), 3);
    assert_eq!(store.errors(), 1);
    assert_eq!(store.slot(0), 5);
    assert_eq!(store.effective_samples(), vec![5]);
}

#[test]
fn zero_latency_counts_as_unused() {
    let mut store = SampleStore::new(2);
    store.record(RequestOutcome::Success(0));
    store.record(RequestOutcome::Success(9));
    assert_eq!(store.errors(), 0);
    assert_eq!(store.successes(), 2);
    assert_eq!(store.effective_samples(), vec![9]);
}
