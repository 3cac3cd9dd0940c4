use zyr::domain::{Data, TimeBlock, Timer};
use zyr::parse::parse_timestamp;

#[test]
fn with_initial_time_is_open() {
    let t = Timer::with_initial_time(1_000);
    assert_eq!(t.start_unix, 1_000);
    assert_eq!(t.end_unix, None);
}

#[test]
fn timer_new_is_open() {
    let t = Timer::new();
    assert_eq!(t.end_unix, None);
}

#[test]
fn with_duration_presets_the_end() {
    let t = Timer::with_duration(90_000);
    assert_eq!(t.end_unix, Some(t.start_unix + 90_000));
}

#[test]
fn add_delays_the_end() {
    let mut t = Timer { start_unix: 1_000, end_unix: Some(5_000) };
    t.add(2_500);
    assert_eq!(t.start_unix, 1_000);
    assert_eq!(t.end_unix, Some(7_500));
}

#[test]
fn sub_advances_the_end_even_before_the_start() {
    let mut t = Timer { start_unix: 4_000, end_unix: Some(5_000) };
    t.sub(2_500);
    assert_eq!(t.end_unix, Some(2_500));
    assert_eq!(t.start_unix, 4_000);
}

#[test]
fn end_closes_the_timer() {
    let mut t = Timer { start_unix: 0, end_unix: None };
    t.end();
    assert!(t.end_unix.is_some());
}

#[test]
fn hms_splits_elapsed_time_for_open_timers() {
    let t = Timer { start_unix: 0, end_unix: None };
    // 2 hours, 5 minutes, 9 seconds later.
    let now = (2 * 3600 + 5 * 60 + 9) * 1000 + 321;
    assert_eq!(t.hms_at(now), (2, 5, 9));
}

#[test]
fn hms_shows_remaining_and_overrun_magnitude_for_countdowns() {
    let t = Timer { start_unix: 0, end_unix: Some(10_000_000) };
    assert_eq!(t.hms_at(4_000_000), (1, 40, 0)); // 6000 s remaining
    assert_eq!(t.hms_at(10_000_000), (0, 0, 0));
    assert_eq!(t.hms_at(10_065_000), (0, 1, 5)); // 65 s past the end
}

#[test]
fn get_hours_minutes_seconds_bounds_minutes_and_seconds() {
    let t = Timer::with_initial_time(0);
    let (_, m, s) = t.get_hours_minutes_seconds();
    assert!(m < 60);
    assert!(s < 60);
}

#[test]
fn to_block_copies_the_fields() {
    let t = Timer { start_unix: 7, end_unix: Some(11) };
    let b = t.to_block("code");
    assert_eq!(b.start_unix, 7);
    assert_eq!(b.end_unix, Some(11));
    assert_eq!(b.category, "code");
}

#[test]
fn block_round_trip_keeps_the_display() {
    // Snapshot a timer to a block, rebuild a timer from the block's
    // start and end: the display is identical at any fixed instant.
    let t = Timer { start_unix: 1_000, end_unix: Some(3_700_000) };
    let b = t.to_block("study");
    let rebuilt = Timer { start_unix: b.start_unix, end_unix: b.end_unix };
    for now in [0u64, 1_000, 2_000_000, 3_700_000, 9_999_999] {
        assert_eq!(rebuilt.hms_at(now), t.hms_at(now));
    }
}

#[test]
fn running_timer_finds_open_and_future_end_blocks() {
    let data = Data {
        categories: vec!["break".to_string()],
        blocks: vec![
            TimeBlock { start_unix: 0, end_unix: Some(50), category: "a".to_string() },
            TimeBlock { start_unix: 60, end_unix: Some(200), category: "b".to_string() },
            TimeBlock { start_unix: 90, end_unix: None, category: "c".to_string() },
        ],
    };
    // At 100 the second block's end is still in the future: it is found
    // first, even though the third is open.
    let t = data.get_running_timer_at(100).unwrap();
    assert_eq!(t.start_unix, 60);
    assert_eq!(t.end_unix, Some(200));
    // At 300 only the open block is still running.
    let t2 = data.get_running_timer_at(300).unwrap();
    assert_eq!(t2.start_unix, 90);
    assert_eq!(t2.end_unix, None);
}

#[test]
fn running_timer_none_when_everything_elapsed() {
    let data = Data {
        categories: vec![],
        blocks: vec![TimeBlock { start_unix: 0, end_unix: Some(50), category: "a".to_string() }],
    };
    assert!(data.get_running_timer_at(100).is_none());
}

#[test]
fn data_new_has_the_break_category() {
    let d = Data::new();
    assert_eq!(d.categories, vec!["break".to_string()]);
    assert!(d.blocks.is_empty());
    let e = Data::empty();
    assert!(e.categories.is_empty());
    assert!(e.blocks.is_empty());
}

#[test]
fn parse_timestamp_reads_weak_rfc3339_as_utc() {
    assert_eq!(parse_timestamp("1970-01-01 00:00:10"), Ok(10_000));
    assert_eq!(parse_timestamp("1970-01-02T00:00:00"), Ok(86_400_000));
    assert!(parse_timestamp("not a time").is_err());
}
