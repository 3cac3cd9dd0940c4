use zyr::commands::{Executable, Outcome, TimerCommands};
use zyr::domain::{Data, TimeBlock};
use zyr::errors::LedgerError;
use zyr::plan::{finish_clear, PlanCommands};

fn block(start: u64, end: Option<u64>, category: &str) -> TimeBlock {
    TimeBlock { start_unix: start, end_unix: end, category: category.to_string() }
}

#[test]
fn start_appends_an_open_block() {
    let mut data = Data::new();
    assert_eq!(TimerCommands::exec_start_at("code", None, 1_000, &mut data), Ok(()));
    assert_eq!(data.blocks.len(), 1);
    assert_eq!(data.blocks[0].start_unix, 1_000);
    assert_eq!(data.blocks[0].end_unix, None);
    assert_eq!(data.blocks[0].category, "code");
}

#[test]
fn start_with_duration_appends_a_countdown_block() {
    let mut data = Data::new();
    assert_eq!(
        TimerCommands::exec_start_at("code", Some(60_000), 1_000, &mut data),
        Ok(())
    );
    assert_eq!(data.blocks[0].end_unix, Some(61_000));
}

#[test]
fn start_fails_while_a_timer_runs() {
    // The single-open-block invariant: once the query finds a running
    // timer, starting another fails with the state error.
    let mut data = Data::new();
    data.push(block(0, None, "code"));
    let r = TimerCommands::exec_start_at("other", None, 1_000, &mut data);
    assert_eq!(r, Err(LedgerError::TimerAlreadyRunning));
    assert_eq!(data.blocks.len(), 1);
}

#[test]
fn start_fails_while_a_countdown_has_not_elapsed() {
    let mut data = Data::new();
    data.push(block(0, Some(5_000), "code"));
    let r = TimerCommands::exec_start_at("other", None, 1_000, &mut data);
    assert_eq!(r, Err(LedgerError::TimerAlreadyRunning));
    // Once the countdown has elapsed, starting succeeds.
    let r2 = TimerCommands::exec_start_at("other", None, 9_000, &mut data);
    assert_eq!(r2, Ok(()));
    assert_eq!(data.blocks.len(), 2);
}

#[test]
fn add_delays_the_running_countdown() {
    let mut data = Data::new();
    data.push(block(0, Some(5_000), "code"));
    assert_eq!(TimerCommands::exec_add_at(2_000, 1_000, &mut data), Ok(true));
    assert_eq!(data.blocks[0].end_unix, Some(7_000));
    assert_eq!(data.blocks[0].category, "code");
}

#[test]
fn add_without_a_running_timer_reports_false() {
    let mut data = Data::new();
    assert_eq!(TimerCommands::exec_add_at(2_000, 1_000, &mut data), Ok(false));
}

#[test]
fn add_on_an_open_ended_timer_is_a_state_error() {
    let mut data = Data::new();
    data.push(block(0, None, "code"));
    assert_eq!(
        TimerCommands::exec_add_at(2_000, 1_000, &mut data),
        Err(LedgerError::NoEndTime)
    );
}

#[test]
fn sub_advances_the_running_countdown() {
    let mut data = Data::new();
    data.push(block(0, Some(5_000), "code"));
    assert_eq!(TimerCommands::exec_sub_at(3_000, 1_000, &mut data), Ok(true));
    assert_eq!(data.blocks[0].end_unix, Some(2_000));
}

#[test]
fn shifts_past_the_range_are_refused() {
    let mut data = Data::new();
    data.push(block(0, Some(5_000), "code"));
    assert_eq!(
        TimerCommands::exec_sub_at(6_000, 1_000, &mut data),
        Err(LedgerError::TimestampOverflow)
    );
    assert_eq!(
        TimerCommands::exec_add_at(u64::MAX, 1_000, &mut data),
        Err(LedgerError::TimestampOverflow)
    );
    assert_eq!(data.blocks[0].end_unix, Some(5_000));
}

#[test]
fn end_closes_the_running_block_at_now() {
    let mut data = Data::new();
    data.push(block(0, None, "code"));
    assert!(TimerCommands::exec_end_at(4_000, &mut data));
    assert_eq!(data.blocks[0].end_unix, Some(4_000));
    assert_eq!(data.blocks[0].category, "code");
}

#[test]
fn end_without_a_running_timer_reports_false() {
    let mut data = Data::new();
    assert!(!TimerCommands::exec_end_at(4_000, &mut data));
}

#[test]
fn shift_rewrites_the_last_block_under_its_category() {
    // The running timer is the first matching block, but the rewrite
    // replaces the last block, under the last block's category.
    let mut data = Data::new();
    data.push(block(0, None, "first"));
    data.push(block(10, Some(20), "last"));
    assert!(TimerCommands::exec_end_at(4_000, &mut data));
    assert_eq!(data.blocks.len(), 2);
    assert_eq!(data.blocks[1].start_unix, 0);
    assert_eq!(data.blocks[1].end_unix, Some(4_000));
    assert_eq!(data.blocks[1].category, "last");
}

#[test]
fn show_hands_back_the_running_timer() {
    let mut data = Data::new();
    data.push(block(0, None, "code"));
    let t = TimerCommands::exec_show(&data).unwrap();
    assert_eq!(t.start_unix, 0);
    assert_eq!(t.end_unix, None);
}

#[test]
fn plan_add_requires_exactly_one_of_duration_and_end() {
    let mut data = Data::new();
    assert_eq!(
        PlanCommands::exec_add("code", 1_000, None, None, &mut data),
        Err(LedgerError::NeitherDurationNorEnd)
    );
    assert_eq!(
        PlanCommands::exec_add("code", 1_000, Some(5), Some(6), &mut data),
        Err(LedgerError::BothDurationAndEnd)
    );
    assert!(data.blocks.is_empty());
}

#[test]
fn plan_add_with_a_duration_computes_the_end() {
    let mut data = Data::new();
    assert_eq!(
        PlanCommands::exec_add("code", 1_000, Some(60_000), None, &mut data),
        Ok(())
    );
    assert_eq!(data.blocks[0].start_unix, 1_000);
    assert_eq!(data.blocks[0].end_unix, Some(61_000));
}

#[test]
fn plan_add_with_an_end_time_stores_it() {
    let mut data = Data::new();
    assert_eq!(
        PlanCommands::exec_add("code", 1_000, None, Some(9_000), &mut data),
        Ok(())
    );
    assert_eq!(data.blocks[0].end_unix, Some(9_000));
}

#[test]
fn plan_add_overflowing_end_is_refused() {
    let mut data = Data::new();
    assert_eq!(
        PlanCommands::exec_add("code", u64::MAX, Some(1), None, &mut data),
        Err(LedgerError::TimestampOverflow)
    );
}

#[test]
fn edit_on_an_empty_ledger_is_refused() {
    let mut data = Data::new();
    let r = PlanCommands::exec_edit(
        &Some("x".to_string()),
        None,
        None,
        None,
        &None,
        true,
        &mut data,
    );
    assert_eq!(r, Err(LedgerError::EmptyLedger));
}

#[test]
fn edit_without_modifications_is_refused() {
    let mut data = Data::new();
    data.push(block(0, Some(10), "code"));
    let r = PlanCommands::exec_edit(&None, None, None, None, &None, true, &mut data);
    assert_eq!(r, Err(LedgerError::NoModifications));
}

#[test]
fn edit_without_an_order_number_asks_for_the_picker() {
    let mut data = Data::new();
    data.push(block(0, Some(10), "code"));
    let r = PlanCommands::exec_edit(
        &Some("x".to_string()),
        None,
        None,
        None,
        &None,
        false,
        &mut data,
    );
    assert_eq!(r, Ok(Outcome::NeedsPicker));
    assert_eq!(data.blocks[0].category, "code");
}

#[test]
fn edit_last_changes_the_most_recent_block() {
    let mut data = Data::new();
    data.push(block(0, Some(10), "old"));
    data.push(block(20, Some(30), "new"));
    let r = PlanCommands::exec_edit(
        &Some("edited".to_string()),
        Some(25),
        None,
        None,
        &None,
        true,
        &mut data,
    );
    assert_eq!(r, Ok(Outcome::Done));
    assert_eq!(data.blocks[1].category, "edited");
    assert_eq!(data.blocks[1].start_unix, 25);
    assert_eq!(data.blocks[1].end_unix, Some(30));
    assert_eq!(data.blocks[0].category, "old");
}

#[test]
fn edit_duration_counts_from_the_new_start() {
    let mut data = Data::new();
    data.push(block(0, Some(10), "code"));
    let r = PlanCommands::exec_edit(
        &None,
        Some(1_000),
        Some(60_000),
        None,
        &Some(0),
        false,
        &mut data,
    );
    assert_eq!(r, Ok(Outcome::Done));
    assert_eq!(data.blocks[0].start_unix, 1_000);
    assert_eq!(data.blocks[0].end_unix, Some(61_000));
}

#[test]
fn edit_rejects_duration_and_end_together() {
    let mut data = Data::new();
    data.push(block(0, Some(10), "code"));
    let r = PlanCommands::exec_edit(
        &None,
        None,
        Some(60_000),
        Some(5_000),
        &Some(0),
        false,
        &mut data,
    );
    assert_eq!(r, Err(LedgerError::BothDurationAndEnd));
    assert_eq!(data.blocks[0].end_unix, Some(10));
}

#[test]
fn edit_mismatched_order_and_last_is_refused() {
    let mut data = Data::new();
    data.push(block(0, Some(10), "code"));
    let r = PlanCommands::exec_edit(
        &Some("x".to_string()),
        None,
        None,
        None,
        &Some(2),
        true,
        &mut data,
    );
    assert_eq!(r, Err(LedgerError::MismatchedOrder));
}

#[test]
fn edit_out_of_range_order_is_refused() {
    let mut data = Data::new();
    data.push(block(0, Some(10), "code"));
    let r = PlanCommands::exec_edit(
        &Some("x".to_string()),
        None,
        None,
        None,
        &Some(5),
        false,
        &mut data,
    );
    assert_eq!(r, Err(LedgerError::OrderOutOfRange { selected: 5, len: 1 }));
}

#[test]
fn del_resolves_to_a_confirmation_request() {
    let mut data = Data::new();
    data.push(block(0, Some(10), "a"));
    data.push(block(20, Some(30), "b"));
    assert_eq!(
        PlanCommands::exec_del(&Some(1), false, &data),
        Ok(Outcome::ConfirmDelete(0))
    );
    assert_eq!(PlanCommands::exec_del(&None, true, &data), Ok(Outcome::ConfirmDelete(1)));
    assert_eq!(PlanCommands::exec_del(&None, false, &data), Ok(Outcome::NeedsPicker));
    let empty = Data::new();
    assert_eq!(
        PlanCommands::exec_del(&None, true, &empty),
        Err(LedgerError::EmptyLedger)
    );
}

#[test]
fn finish_del_removes_only_when_confirmed() {
    let mut data = Data::new();
    data.push(block(0, Some(10), "a"));
    data.push(block(20, Some(30), "b"));
    assert!(!PlanCommands::finish_del(0, false, &mut data));
    assert_eq!(data.blocks.len(), 2);
    assert!(PlanCommands::finish_del(0, true, &mut data));
    assert_eq!(data.blocks.len(), 1);
    assert_eq!(data.blocks[0].category, "b");
}

#[test]
fn apply_choice_resumes_after_the_picker() {
    let mut data = Data::new();
    data.push(block(0, Some(10), "a"));
    data.push(block(20, Some(30), "b"));
    let edit = PlanCommands::Edit {
        category: Some("picked".to_string()),
        from: None,
        duration_ms: None,
        to: None,
        order_number: None,
        last: false,
    };
    assert_eq!(edit.apply_choice(1, &mut data), Ok(Outcome::Done));
    assert_eq!(data.blocks[0].category, "picked");
    let del = PlanCommands::Del { order_number: None, last: false };
    assert_eq!(del.apply_choice(0, &mut data), Ok(Outcome::ConfirmDelete(1)));
}

#[test]
fn finish_clear_resets_only_when_confirmed() {
    let mut data = Data::new();
    data.push(block(0, Some(10), "a"));
    assert!(!finish_clear(false, &mut data));
    assert_eq!(data.blocks.len(), 1);
    assert!(finish_clear(true, &mut data));
    assert!(data.blocks.is_empty());
    assert!(data.categories.is_empty());
}

#[test]
fn execute_dispatches_timer_subcommands() {
    let mut data = Data::new();
    data.push(block(0, Some(5_000), "code"));
    let add = TimerCommands::Add { duration_ms: 1_000 };
    // The clock's now is far past 5000 ms since the epoch, so no timer
    // is running anymore.
    assert_eq!(add.execute(&mut data), Ok(Outcome::NoTimer));
    let end = TimerCommands::End;
    assert_eq!(end.execute(&mut data), Ok(Outcome::NoTimerToEnd));
}

#[test]
fn execute_dispatches_plan_subcommands() {
    let mut data = Data::new();
    let add = PlanCommands::Add {
        category: "code".to_string(),
        from: 1_000,
        duration_ms: Some(60_000),
        to: None,
    };
    assert_eq!(add.execute(&mut data), Ok(Outcome::Done));
    assert_eq!(data.blocks.len(), 1);
    let del = PlanCommands::Del { order_number: None, last: true };
    assert_eq!(del.execute(&mut data), Ok(Outcome::ConfirmDelete(0)));
}
