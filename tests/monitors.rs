use process_monitor::error::LoadError;
use process_monitor::model::{Monitor, Monitors, ResultData};
use process_monitor::schedule::{Action, Scheduler, RUN_TIMEOUT_SECS, UPDATE_INTERVAL_SECS};
use process_monitor::snapshot::{current_snapshot_file_name, snapshot_file_name, snapshot_path};
use process_monitor::tick::{
    apply_tick, clock_seconds, random_result, result_from, timestamp_seconds, update_monitors,
};

fn cpu_check() -> Monitors {
    Monitors::new(vec![Monitor::new(
        "cpu-check".to_string(),
        Some(1),
        None,
        "ok".to_string(),
        None,
    )])
}

fn two_records() -> Monitors {
    Monitors::new(vec![
        Monitor::new("a".to_string(), Some(7), Some("run.sh".to_string()), "x".to_string(), None),
        Monitor::new(
            "b".to_string(),
            None,
            None,
            "y".to_string(),
            Some(ResultData::new(Some(-3), 5)),
        ),
    ])
}

#[test]
fn one_run_stamps_the_cpu_check() {
    let start = clock_seconds().unwrap() as i64;
    let mut m = cpu_check();
    let clock = update_monitors(&mut m);
    assert!(clock.is_some());
    let r = m.monitors[0].result.unwrap();
    assert!(r.value.is_some());
    assert!(r.processed_at >= start);
    assert_eq!(r.processed_at, clock.unwrap() as i64);
    assert_eq!(m.monitors[0].name, "cpu-check");
    assert_eq!(m.monitors[0].monitor_id, Some(1));
    assert_eq!(m.monitors[0].script, None);
    assert_eq!(m.monitors[0].code, "ok");
}

#[test]
fn tick_stamps_every_record_with_the_tick_time() {
    let mut m = two_records();
    apply_tick(&mut m, &vec![10, -20], Some(1_700_000_000));
    assert_eq!(m.monitors[0].result, Some(ResultData::new(Some(10), 1_700_000_000)));
    assert_eq!(m.monitors[1].result, Some(ResultData::new(Some(-20), 1_700_000_000)));
}

#[test]
fn tick_keeps_identity_fields() {
    let mut m = two_records();
    apply_tick(&mut m, &vec![1, 2], Some(42));
    assert_eq!(m.monitors[0].name, "a");
    assert_eq!(m.monitors[0].monitor_id, Some(7));
    assert_eq!(m.monitors[0].script, Some("run.sh".to_string()));
    assert_eq!(m.monitors[0].code, "x");
    assert_eq!(m.monitors[1].name, "b");
    assert_eq!(m.monitors[1].monitor_id, None);
    assert_eq!(m.monitors[1].code, "y");
}

#[test]
fn second_tick_replaces_the_first_whole() {
    let mut m = two_records();
    apply_tick(&mut m, &vec![1, 2], Some(100));
    apply_tick(&mut m, &vec![3, 4], Some(130));
    assert_eq!(m.monitors[0].result, Some(ResultData::new(Some(3), 130)));
    assert_eq!(m.monitors[1].result, Some(ResultData::new(Some(4), 130)));
}

#[test]
fn tick_without_clock_clears_results() {
    let mut m = two_records();
    apply_tick(&mut m, &vec![1, 2], None);
    assert_eq!(m.monitors[0].result, None);
    assert_eq!(m.monitors[1].result, None);
}

#[test]
fn result_from_stamps_value_and_time() {
    assert_eq!(result_from(5, Some(9)), Some(ResultData::new(Some(5), 9)));
    assert_eq!(result_from(5, None), None);
}

#[test]
fn random_result_has_a_value() {
    let r = random_result().unwrap();
    assert!(r.value.is_some());
    assert!(r.processed_at >= 0);
    assert!(r.processed_at > 1_600_000_000);
}

#[test]
fn empty_collection_ticks_to_empty() {
    let mut m = Monitors::new(vec![]);
    update_monitors(&mut m);
    assert_eq!(m.len(), 0);
}

#[test]
fn snapshot_equals_the_collection() {
    let m = two_records();
    let s = m.snapshot();
    assert!(s.same_as(&m));
    assert_eq!(s.monitors[1].result, Some(ResultData::new(Some(-3), 5)));
    assert_eq!(s.monitors[0].script, Some("run.sh".to_string()));
}

#[test]
fn same_as_tells_collections_apart() {
    let a = two_records();
    let mut b = two_records();
    apply_tick(&mut b, &vec![1, 2], Some(3));
    assert!(!a.same_as(&b));
    assert!(!a.same_as(&cpu_check()));
    assert!(a.same_as(&two_records()));
}

#[test]
fn file_name_is_stamp_and_suffix() {
    assert_eq!(snapshot_file_name("202403070905"), "202403070905_monitors.json");
}

#[test]
fn current_file_name_holds_a_minute_stamp() {
    let name = current_snapshot_file_name().unwrap();
    assert_eq!(name.len(), 12 + "_monitors.json".len());
    assert!(name.ends_with("_monitors.json"));
    assert!(name[..12].chars().all(|c| c.is_ascii_digit()));
    assert!(name.starts_with("20"));
}

#[test]
fn clock_reading_fits_a_timestamp() {
    let secs = clock_seconds().unwrap();
    assert!(secs <= i64::MAX as u64);
    assert!(secs > 1_600_000_000);
}

#[test]
fn every_tick_keeps_identity() {
    let mut m = two_records();
    for k in 0..5 {
        apply_tick(&mut m, &vec![k, -k], Some(100 + k as u64));
    }
    update_monitors(&mut m);
    let s = m.snapshot();
    assert_eq!(s.monitors[0].name, "a");
    assert_eq!(s.monitors[0].monitor_id, Some(7));
    assert_eq!(s.monitors[0].script, Some("run.sh".to_string()));
    assert_eq!(s.monitors[0].code, "x");
    assert_eq!(s.monitors[1].name, "b");
    assert_eq!(s.monitors[1].monitor_id, None);
    assert_eq!(s.monitors[1].script, None);
    assert_eq!(s.monitors[1].code, "y");
}

#[test]
fn later_tick_stamps_no_earlier() {
    let mut m = two_records();
    apply_tick(&mut m, &vec![1, 2], Some(100));
    let first = m.monitors[0].result.unwrap().processed_at;
    update_monitors(&mut m);
    assert!(m.monitors[0].result.unwrap().processed_at >= first);
    assert!(m.monitors[1].result.unwrap().processed_at >= first);
}

#[test]
fn snapshot_path_joins_dir_and_name() {
    assert_eq!(snapshot_path("out", "x.json"), "out/x.json");
}

#[test]
fn scheduler_runs_update_then_store_at_start() {
    let mut s = Scheduler::with_store_interval(0, 60);
    assert_eq!(s.step(0), Action::Update);
    assert_eq!(s.step(0), Action::Store);
    assert_eq!(s.step(0), Action::WaitUntil(UPDATE_INTERVAL_SECS));
    assert_eq!(s.step(30), Action::Update);
    assert_eq!(s.step(31), Action::WaitUntil(60));
    assert_eq!(s.step(60), Action::Update);
    assert_eq!(s.step(60), Action::Store);
    assert_eq!(s.step(61), Action::WaitUntil(90));
}

#[test]
fn scheduler_expires_at_the_deadline() {
    let mut s = Scheduler::with_store_interval(0, 60);
    assert_eq!(s.step(RUN_TIMEOUT_SECS), Action::Expire);
    assert_eq!(s.step(RUN_TIMEOUT_SECS + 1), Action::Expire);
    let mut s = Scheduler::new(0, 30, 60, 300);
    s.step(0);
    s.step(0);
    assert_eq!(s.step(299), Action::Update);
    assert_eq!(s.step(299), Action::Store);
    assert_eq!(s.step(299), Action::WaitUntil(300));
}

#[test]
fn scheduler_holds_the_deadline_at_the_last_instant() {
    let s = Scheduler::new(u64::MAX - 5, 30, 60, 300);
    assert_eq!(s.deadline, u64::MAX);
}

#[test]
fn schema_error_carries_message_and_text() {
    let text = "{\"monitors\": [";
    let e = serde_json::from_str::<serde_json::Value>(text).unwrap_err();
    let err = LoadError::from_json(&e, text);
    assert!(err.is_schema());
    let d = err.describe();
    assert!(d.starts_with("Error JSON: "));
    assert!(d.contains(&e.to_string()));
    assert!(d.ends_with("\nJSON content:\n{\"monitors\": ["));
}

#[test]
fn io_error_describes_itself() {
    let err = LoadError::Io("No such file or directory (os error 2)".to_string());
    assert!(!err.is_schema());
    assert_eq!(err.describe(), "No such file or directory (os error 2)");
}

#[test]
fn schema_error_describes_message_then_text() {
    let err = LoadError::schema("expected value at line 1 column 1", "nope");
    assert!(err.is_schema());
    assert_eq!(
        err.describe(),
        "Error JSON: expected value at line 1 column 1\nJSON content:\nnope"
    );
}

#[test]
fn timestamp_seconds_holds_to_signed_range() {
    assert_eq!(timestamp_seconds(0), Some(0));
    assert_eq!(timestamp_seconds(1_700_000_000), Some(1_700_000_000));
    assert_eq!(timestamp_seconds(i64::MAX as u64), Some(i64::MAX as u64));
    assert_eq!(timestamp_seconds(i64::MAX as u64 + 1), None);
    assert_eq!(timestamp_seconds(u64::MAX), None);
}
