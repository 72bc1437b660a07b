use spool::debug::{iso_ts, write_line};

#[test]
fn timestamp_pads_milliseconds() {
    assert_eq!(iso_ts(1_700_000_000, 5), "1700000000.005");
    assert_eq!(iso_ts(0, 0), "0.000");
    assert_eq!(iso_ts(42, 999), "42.999");
    assert_eq!(iso_ts(u64::MAX, 10), format!("{}.{:03}", u64::MAX, 10));
}

#[test]
fn timestamp_matches_format() {
    for secs in [0u64, 9, 10, 99, 100, 12345, 1_725_029_869] {
        for ms in [0u32, 1, 9, 10, 99, 100, 500, 999] {
            assert_eq!(iso_ts(secs, ms), format!("{}.{:03}", secs, ms));
        }
    }
}

#[test]
fn log_record_layout() {
    assert_eq!(
        write_line(1_725_029_869, 42, "run() entered"),
        "[1725029869.042] run() entered\n"
    );
    assert_eq!(write_line(7, 0, ""), "[7.000] \n");
}

#[test]
fn timestamps_follow_the_clock() {
    let readings = [0u64, 999, 1000, 1001, 9_999, 10_000, 1_725_029_869_042];
    let mut last = 0f64;
    for t in readings {
        let text = iso_ts(t / 1000, (t % 1000) as u32);
        let value: f64 = text.parse().unwrap();
        assert!(value >= last, "{} then {}", last, text);
        last = value;
        let (secs, frac) = text.split_once('.').unwrap();
        assert_eq!(frac.len(), 3);
        assert_eq!(secs.parse::<u64>().unwrap() * 1000 + frac.parse::<u64>().unwrap(), t);
    }
}
