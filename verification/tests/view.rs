use zyr::clock::{millis_since_midnight, prettify_duration, same_day, CivilStamp};
use zyr::domain::{Data, TimeBlock};
use zyr::view::{civil_blocks, day_view, view_today, CivilBlock};

const MIDNIGHT: u64 = 1_000_000_000_000;

fn stamp(millis: u64, day: u8, hour: u8, minute: u8) -> CivilStamp {
    CivilStamp { millis, year: 2024, month: 5, day, hour, minute, second: 0 }
}

fn today_at(hour: u8, minute: u8) -> CivilStamp {
    stamp(
        MIDNIGHT + hour as u64 * 3_600_000 + minute as u64 * 60_000,
        10,
        hour,
        minute,
    )
}

fn yesterday_at(hour: u8, minute: u8) -> CivilStamp {
    stamp(
        MIDNIGHT - 86_400_000 + hour as u64 * 3_600_000 + minute as u64 * 60_000,
        9,
        hour,
        minute,
    )
}

#[test]
fn same_day_compares_the_calendar_date() {
    assert!(same_day(&today_at(1, 0), &today_at(23, 59)));
    assert!(!same_day(&today_at(0, 0), &yesterday_at(23, 0)));
}

#[test]
fn millis_since_midnight_uses_the_civil_fields() {
    assert_eq!(millis_since_midnight(&today_at(1, 30)), 5_400_000);
    assert_eq!(millis_since_midnight(&today_at(0, 0)), 0);
}

#[test]
fn boundary_block_counts_only_from_midnight() {
    // Started yesterday 23:00, ended today 01:00, viewed today noon:
    // only the hour from midnight to 01:00 counts, not the full two.
    let blocks = vec![CivilBlock {
        start: yesterday_at(23, 0),
        end: Some(today_at(1, 0)),
        category: "code".to_string(),
    }];
    let s = day_view(&blocks, &today_at(12, 0));
    assert_eq!(s.worked_millis, 3_600_000);
    assert_eq!(s.break_millis, 0);
    assert_eq!(s.entries.len(), 1);
    assert_eq!(s.entries[0].category, "code");
    assert_eq!(s.entries[0].millis, 3_600_000);
}

#[test]
fn open_block_counts_up_to_now_and_is_idempotent() {
    let blocks = vec![CivilBlock {
        start: today_at(9, 0),
        end: None,
        category: "code".to_string(),
    }];
    let now = today_at(9, 45);
    let s1 = day_view(&blocks, &now);
    assert_eq!(s1.worked_millis, 45 * 60_000);
    let s2 = day_view(&blocks, &now);
    assert_eq!(s2.worked_millis, s1.worked_millis);
    assert_eq!(s2.break_millis, s1.break_millis);
    assert_eq!(s2.entries.len(), s1.entries.len());
    for (a, b) in s1.entries.iter().zip(s2.entries.iter()) {
        assert_eq!(a.category, b.category);
        assert_eq!(a.millis, b.millis);
    }
}

#[test]
fn open_block_started_yesterday_counts_since_midnight() {
    let blocks = vec![CivilBlock {
        start: yesterday_at(22, 0),
        end: None,
        category: "code".to_string(),
    }];
    let now = today_at(8, 30);
    let s = day_view(&blocks, &now);
    assert_eq!(s.worked_millis, millis_since_midnight(&now));
}

#[test]
fn one_hour_block_scenario() {
    // One block from 09:00 to 10:00 under `code`, viewed at 10:00.
    let blocks = vec![CivilBlock {
        start: today_at(9, 0),
        end: Some(today_at(10, 0)),
        category: "code".to_string(),
    }];
    let s = day_view(&blocks, &today_at(10, 0));
    assert_eq!(prettify_duration(s.worked_millis), "1h0m0s");
    assert_eq!(prettify_duration(s.break_millis), "0s");
    assert_eq!(prettify_duration(s.grand_total()), "1h0m0s");
    assert_eq!(s.entries.len(), 1);
    assert_eq!(s.entries[0].category, "code");
    assert_eq!(prettify_duration(s.entries[0].millis), "1h0m0s");
}

#[test]
fn future_end_blocks_are_clipped_to_now() {
    let blocks = vec![CivilBlock {
        start: today_at(9, 0),
        end: Some(today_at(18, 0)),
        category: "code".to_string(),
    }];
    let s = day_view(&blocks, &today_at(10, 0));
    assert_eq!(s.worked_millis, 3_600_000);
}

#[test]
fn other_days_blocks_are_ignored() {
    let blocks = vec![CivilBlock {
        start: yesterday_at(9, 0),
        end: Some(yesterday_at(10, 0)),
        category: "code".to_string(),
    }];
    let s = day_view(&blocks, &today_at(12, 0));
    assert_eq!(s.worked_millis, 0);
    assert!(s.entries.is_empty());
}

#[test]
fn break_time_is_split_from_worked_time() {
    let blocks = vec![
        CivilBlock {
            start: today_at(9, 0),
            end: Some(today_at(10, 0)),
            category: "code".to_string(),
        },
        CivilBlock {
            start: today_at(10, 0),
            end: Some(today_at(10, 30)),
            category: "break".to_string(),
        },
    ];
    let s = day_view(&blocks, &today_at(11, 0));
    assert_eq!(s.worked_millis, 3_600_000);
    assert_eq!(s.break_millis, 1_800_000);
    assert_eq!(s.grand_total(), 5_400_000);
}

#[test]
fn categories_accumulate_across_blocks() {
    let blocks = vec![
        CivilBlock {
            start: today_at(9, 0),
            end: Some(today_at(9, 20)),
            category: "code".to_string(),
        },
        CivilBlock {
            start: today_at(10, 0),
            end: Some(today_at(10, 40)),
            category: "code".to_string(),
        },
    ];
    let s = day_view(&blocks, &today_at(11, 0));
    assert_eq!(s.entries.len(), 1);
    assert_eq!(s.entries[0].millis, 3_600_000);
}

#[test]
fn breakdown_sorts_by_descending_span() {
    let blocks = vec![
        CivilBlock {
            start: today_at(9, 0),
            end: Some(today_at(9, 10)),
            category: "short".to_string(),
        },
        CivilBlock {
            start: today_at(10, 0),
            end: Some(today_at(11, 0)),
            category: "long".to_string(),
        },
    ];
    let s = day_view(&blocks, &today_at(12, 0));
    assert_eq!(s.entries[0].category, "long");
    assert_eq!(s.entries[1].category, "short");
}

#[test]
fn breakdown_breaks_ties_by_ascending_name() {
    let blocks = vec![
        CivilBlock {
            start: today_at(9, 0),
            end: Some(today_at(9, 30)),
            category: "writing".to_string(),
        },
        CivilBlock {
            start: today_at(10, 0),
            end: Some(today_at(10, 30)),
            category: "art".to_string(),
        },
    ];
    let s = day_view(&blocks, &today_at(12, 0));
    assert_eq!(s.entries[0].category, "art");
    assert_eq!(s.entries[1].category, "writing");
}

#[test]
fn civil_blocks_read_the_local_calendar() {
    let data = Data {
        categories: vec![],
        blocks: vec![TimeBlock {
            start_unix: 1_000_000,
            end_unix: Some(2_000_000),
            category: "code".to_string(),
        }],
    };
    let cb = civil_blocks(&data).unwrap();
    assert_eq!(cb.len(), 1);
    assert_eq!(cb[0].start.millis, 1_000_000);
    assert_eq!(cb[0].end.unwrap().millis, 2_000_000);
    assert_eq!(cb[0].category, "code");
    let s = cb[0].start;
    assert!((1..=12).contains(&s.month));
    assert!((1..=31).contains(&s.day));
    assert!(s.hour <= 23 && s.minute <= 59 && s.second <= 59);
}

#[test]
fn civil_blocks_refuse_out_of_range_timestamps() {
    let data = Data {
        categories: vec![],
        blocks: vec![TimeBlock { start_unix: u64::MAX, end_unix: None, category: "x".to_string() }],
    };
    assert!(civil_blocks(&data).is_err());
}

#[test]
fn view_today_of_an_empty_ledger_is_empty() {
    let s = view_today(&Data::new()).unwrap();
    assert_eq!(s.worked_millis, 0);
    assert_eq!(s.break_millis, 0);
    assert!(s.entries.is_empty());
}

#[test]
fn empty_ledger_has_an_empty_summary() {
    let s = day_view(&vec![], &today_at(12, 0));
    assert_eq!(s.worked_millis, 0);
    assert_eq!(s.break_millis, 0);
    assert!(s.entries.is_empty());
}
