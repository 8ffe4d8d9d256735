use gpio_recorder::time::MAX_TIMESTAMP_MILLIS;
use gpio_recorder::{GpioRecorder, Level, Sample, Timestamp};

#[test]
fn it_works() {
    let mut gr = GpioRecorder::new();

    for _i in 1..10 {
        gr.set_low();
        gr.set_high();
    }
    gr.save_csv().unwrap();
}

#[test]
fn empty_export_has_header_only() {
    let gr = GpioRecorder::new();
    let bytes = gr.save_csv().unwrap();
    assert_eq!(String::from_utf8(bytes).unwrap(), "timestamp,value\n");
}

#[test]
fn export_scenario_matches_call_order() {
    let mut gr = GpioRecorder::new();
    gr.record_at(Timestamp::from_millis(1_704_067_200_000), Level::Low);
    gr.record_at(Timestamp::from_millis(1_704_067_200_010), Level::High);
    gr.record_at(Timestamp::from_millis(1_704_067_200_020), Level::Low);
    let bytes = gr.save_csv().unwrap();
    assert_eq!(
        String::from_utf8(bytes).unwrap(),
        "timestamp,value\n\
         2024-01-01T00:00:00.000Z,0\n\
         2024-01-01T00:00:00.010Z,1\n\
         2024-01-01T00:00:00.020Z,0\n"
    );
}

#[test]
fn appends_grow_log_in_call_order() {
    let mut gr = GpioRecorder::new();
    assert_eq!(gr.len(), 0);
    gr.set_low();
    assert_eq!(gr.len(), 1);
    gr.set_high();
    assert_eq!(gr.len(), 2);
    gr.set_high();
    assert_eq!(gr.len(), 3);

    let text = String::from_utf8(gr.save_csv().unwrap()).unwrap();
    let rows: Vec<&str> = text.lines().collect();
    assert_eq!(rows.len(), 4);
    assert_eq!(rows[0], "timestamp,value");
    assert!(rows[1].ends_with(",0"));
    assert!(rows[2].ends_with(",1"));
    assert!(rows[3].ends_with(",1"));
}

#[test]
fn equal_logs_export_identical_bytes() {
    let instants = [10_000_i64, 20_000, 20_000, 30_000];
    let levels = [Level::Low, Level::High, Level::High, Level::Low];
    let mut a = GpioRecorder::new();
    let mut b = GpioRecorder::new();
    for (&m, &l) in instants.iter().zip(levels.iter()) {
        a.record_at(Timestamp::from_millis(m), l);
        b.record_at(Timestamp::from_millis(m), l);
    }
    assert_eq!(a.save_csv().unwrap(), b.save_csv().unwrap());
}

#[test]
fn clock_timestamps_are_non_decreasing() {
    // Assumes the host clock is not stepped backwards during the run.
    let mut gr = GpioRecorder::new();
    for _ in 0..50 {
        gr.set_low();
        gr.set_high();
    }
    let text = String::from_utf8(gr.save_csv().unwrap()).unwrap();
    let stamps: Vec<&str> = text
        .lines()
        .skip(1)
        .map(|row| row.split(',').next().unwrap())
        .collect();
    assert_eq!(stamps.len(), 100);
    // Fixed-width RFC 3339 UTC strings order as their instants do.
    for pair in stamps.windows(2) {
        assert!(pair[0] <= pair[1]);
    }
}

#[test]
fn from_millis_clamps_into_range() {
    assert_eq!(Timestamp::from_millis(-5).millis(), 0);
    assert_eq!(Timestamp::from_millis(0).millis(), 0);
    assert_eq!(Timestamp::from_millis(12_345).millis(), 12_345);
    assert_eq!(
        Timestamp::from_millis(MAX_TIMESTAMP_MILLIS).millis(),
        MAX_TIMESTAMP_MILLIS
    );
    assert_eq!(
        Timestamp::from_millis(i64::MAX).millis(),
        MAX_TIMESTAMP_MILLIS
    );
}

#[test]
fn sample_binds_value_and_instant() {
    let t = Timestamp::from_millis(99);
    let s = Sample::at(t, Level::High);
    assert_eq!(s.timestamp.millis(), 99);
    assert_eq!(s.value, Level::High);

    let s2 = Sample::new(Level::Low);
    assert_eq!(s2.value, Level::Low);
}
