use heapscope::error::Failure;
use heapscope::error::TelemetryError;
use heapscope::histograms::Histograms;
use heapscope::metric::Metric;
use heapscope::metric::Readings;
use heapscope::mibs::MIBs;

fn tick(value: usize) -> Readings {
    Readings {
        active: value,
        allocated: value + 1000,
        mapped: value + 2000,
        metadata: value + 3000,
        retained: value + 4000,
    }
}

#[test]
fn new_store_is_empty_and_reports_its_capacity() {
    let store = Histograms::with_capacity(512).unwrap();
    assert_eq!(store.capacity(), 512);
    for metric in Metric::all() {
        assert_eq!(store.values(metric), Vec::<usize>::new());
    }
}

#[test]
fn capacity_zero_is_invalid() {
    let error = Histograms::with_capacity(0).err().unwrap();
    assert_eq!(error, TelemetryError { failure: Failure::InvalidCapacity, cause: None });
}

#[test]
fn capacity_need_not_be_a_power_of_two() {
    let mut store = Histograms::with_capacity(3).unwrap();
    assert_eq!(store.capacity(), 3);
    for value in 0..5 {
        store.record(tick(value));
    }
    assert_eq!(store.values(Metric::Active), vec![2, 3, 4]);
    assert_eq!(store.capacity(), 3);
}

#[test]
fn window_grows_in_insertion_order_below_capacity() {
    let mut store = Histograms::with_capacity(8).unwrap();
    store.record(tick(7));
    store.record(tick(5));
    store.record(tick(9));
    assert_eq!(store.values(Metric::Active), vec![7, 5, 9]);
    assert_eq!(store.values(Metric::Allocated), vec![1007, 1005, 1009]);
    assert_eq!(store.values(Metric::Mapped), vec![2007, 2005, 2009]);
    assert_eq!(store.values(Metric::Metadata), vec![3007, 3005, 3009]);
    assert_eq!(store.values(Metric::Retained), vec![4007, 4005, 4009]);
}

#[test]
fn full_window_evicts_exactly_the_oldest() {
    let mut store = Histograms::with_capacity(4).unwrap();
    for value in [10, 20, 30, 40] {
        store.record(tick(value));
    }
    assert_eq!(store.values(Metric::Active), vec![10, 20, 30, 40]);
    store.record(tick(50));
    assert_eq!(store.values(Metric::Active), vec![20, 30, 40, 50]);
    assert_eq!(store.values(Metric::Retained), vec![4020, 4030, 4040, 4050]);
}

#[test]
fn length_is_the_smaller_of_appends_and_capacity() {
    for capacity in 1..=9usize {
        for appends in 0..=20usize {
            let mut store = Histograms::with_capacity(capacity).unwrap();
            for value in 0..appends {
                store.record(tick(value));
            }
            let values = store.values(Metric::Mapped);
            assert_eq!(values.len(), appends.min(capacity));
            let first = appends - appends.min(capacity);
            let expected: Vec<usize> = (first..appends).map(|value| value + 2000).collect();
            assert_eq!(values, expected);
        }
    }
}

#[test]
fn window_of_capacity_one_holds_the_last_value() {
    let mut store = Histograms::with_capacity(1).unwrap();
    store.record(tick(1));
    store.record(tick(2));
    assert_eq!(store.values(Metric::Active), vec![2]);
}

#[test]
fn six_hundred_ticks_leave_the_last_five_hundred_and_twelve() {
    let mut store = Histograms::with_capacity(512).unwrap();
    for value in 0..600 {
        store.record(tick(value));
    }
    let active = store.values(Metric::Active);
    assert_eq!(active.len(), 512);
    assert_eq!(active[0], 88);
    assert_eq!(active[511], 599);
    let expected: Vec<usize> = (88..600).collect();
    assert_eq!(active, expected);
}

#[test]
fn rebuild_changes_nothing_that_can_be_seen() {
    let mut store = Histograms::with_capacity(3).unwrap();
    for value in 0..7 {
        store.record(tick(value));
    }
    store.rebuild();
    assert_eq!(store.capacity(), 3);
    assert_eq!(store.values(Metric::Active), vec![4, 5, 6]);
    assert_eq!(store.values(Metric::Metadata), vec![3004, 3005, 3006]);
    store.record(tick(7));
    assert_eq!(store.values(Metric::Active), vec![5, 6, 7]);
}

#[test]
fn rebuild_of_a_partly_filled_store_keeps_it_growing() {
    let mut store = Histograms::with_capacity(4).unwrap();
    store.record(tick(1));
    store.rebuild();
    assert_eq!(store.values(Metric::Active), vec![1]);
    store.record(tick(2));
    assert_eq!(store.values(Metric::Active), vec![1, 2]);
}

#[test]
fn committed_readings_are_appended() {
    let mut store = Histograms::with_capacity(2).unwrap();
    assert_eq!(store.commit(Ok(tick(3))), Ok(()));
    assert_eq!(store.values(Metric::Active), vec![3]);
    assert_eq!(store.values(Metric::Retained), vec![4003]);
}

#[test]
fn failed_tick_leaves_every_window_unchanged() {
    let mut store = Histograms::with_capacity(2).unwrap();
    store.record(tick(1));
    store.record(tick(2));
    let error = TelemetryError { failure: Failure::Read(Metric::Mapped), cause: None };
    assert_eq!(store.commit(Err(error)), Err(error));
    assert_eq!(store.values(Metric::Active), vec![1, 2]);
    assert_eq!(store.values(Metric::Allocated), vec![1001, 1002]);
    assert_eq!(store.values(Metric::Mapped), vec![2001, 2002]);
    assert_eq!(store.values(Metric::Metadata), vec![3001, 3002]);
    assert_eq!(store.values(Metric::Retained), vec![4001, 4002]);
}

#[test]
fn sample_appends_one_value_to_every_window() {
    let mibs = MIBs::new().unwrap();
    let mut store = Histograms::with_capacity(2).unwrap();
    mibs.advance().unwrap();
    store.sample(&mibs).unwrap();
    for metric in Metric::all() {
        assert_eq!(store.values(metric).len(), 1);
    }
    mibs.advance().unwrap();
    store.sample(&mibs).unwrap();
    mibs.advance().unwrap();
    store.sample(&mibs).unwrap();
    for metric in Metric::all() {
        assert_eq!(store.values(metric).len(), 2);
    }
}

#[test]
fn read_all_gives_what_sample_appends() {
    let mibs = MIBs::new().unwrap();
    mibs.advance().unwrap();
    let readings = mibs.read_all().unwrap();
    let mut store = Histograms::with_capacity(4).unwrap();
    store.record(readings);
    for metric in Metric::all() {
        assert_eq!(store.values(metric), vec![readings.get(metric)]);
    }
}
