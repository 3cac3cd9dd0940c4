use zyr::domain::{Data, TimeBlock};
use zyr::picker::{
    block_label, footer, format_block_label, mark_row, pad_row, picker_lines, tick_advance,
    PickerAction, PickerKey, PickerState,
};

#[test]
fn init_starts_on_the_first_page() {
    let s = PickerState::init(23);
    assert_eq!(s.page, 0);
    assert_eq!(s.pos, 0);
    assert_eq!(s.max_pos, 10);
    assert_eq!(s.total_pages, 3);

    let small = PickerState::init(4);
    assert_eq!(small.max_pos, 4);
    assert_eq!(small.total_pages, 1);
}

#[test]
fn up_and_down_move_within_the_page_and_clamp() {
    let mut s = PickerState::init(23);
    assert_eq!(s.step(PickerKey::Up), PickerAction::Stay);
    assert_eq!(s.step(PickerKey::Down), PickerAction::Moved { old_pos: 0, new_pos: 1 });
    assert_eq!(s.step(PickerKey::Down), PickerAction::Moved { old_pos: 1, new_pos: 2 });
    assert_eq!(s.step(PickerKey::Up), PickerAction::Moved { old_pos: 2, new_pos: 1 });
    for _ in 0..20 {
        s.step(PickerKey::Down);
    }
    assert_eq!(s.pos, 9);
    assert_eq!(s.step(PickerKey::Down), PickerAction::Stay);
}

#[test]
fn page_changes_clamp_the_highlight() {
    let mut s = PickerState::init(23);
    for _ in 0..9 {
        s.step(PickerKey::Down);
    }
    assert_eq!(s.pos, 9);
    assert_eq!(s.step(PickerKey::Right), PickerAction::PageChanged);
    assert_eq!(s.page, 1);
    assert_eq!(s.max_pos, 10);
    assert_eq!(s.pos, 9);
    // The last page has three rows: the highlight clamps onto it.
    assert_eq!(s.step(PickerKey::Right), PickerAction::PageChanged);
    assert_eq!(s.page, 2);
    assert_eq!(s.max_pos, 3);
    assert_eq!(s.pos, 2);
    // No page past the last.
    assert_eq!(s.step(PickerKey::Right), PickerAction::Stay);
    assert_eq!(s.step(PickerKey::Left), PickerAction::PageChanged);
    assert_eq!(s.page, 1);
}

#[test]
fn left_at_the_first_page_is_a_no_op() {
    let mut s = PickerState::init(23);
    assert_eq!(s.step(PickerKey::Left), PickerAction::Stay);
}

#[test]
fn enter_confirms_the_reversed_position() {
    let mut s = PickerState::init(23);
    s.step(PickerKey::Right);
    s.step(PickerKey::Down);
    s.step(PickerKey::Down);
    assert_eq!(s.step(PickerKey::Enter), PickerAction::Chosen { rev: 12 });
}

#[test]
fn ctrl_c_cancels_and_other_keys_are_ignored() {
    let mut s = PickerState::init(3);
    assert_eq!(s.step(PickerKey::Other), PickerAction::Stay);
    assert_eq!(s.step(PickerKey::CtrlC), PickerAction::Cancelled);
}

#[test]
fn rows_are_padded_and_marked() {
    let padded = pad_row("abc");
    assert_eq!(padded.len(), 82);
    assert!(padded.starts_with("  abc"));
    assert!(padded.ends_with(' '));
    assert_eq!(mark_row("abc", true), "> abc");
    assert_eq!(mark_row("abc", false), "  abc");
}

#[test]
fn footer_shows_one_based_page_numbers() {
    assert_eq!(
        footer(0, 3),
        "Page 1 of 3. Navigate with arrows or Vim motions. Enter to submit."
    );
    assert_eq!(
        footer(2, 3),
        "Page 3 of 3. Navigate with arrows or Vim motions. Enter to submit."
    );
}

#[test]
fn labels_have_the_reversed_index_and_category() {
    assert_eq!(
        format_block_label(4, "code", "start text", "end text"),
        "4: code: start text, end text"
    );
}

#[test]
fn open_blocks_are_labelled_ongoing() {
    let b = TimeBlock { start_unix: 0, end_unix: None, category: "code".to_string() };
    let label = block_label(&b, 0).unwrap();
    assert!(label.starts_with("0: code: "));
    assert!(label.ends_with(", Ongoing"));
}

#[test]
fn closed_blocks_are_labelled_with_both_instants() {
    // Mid-1970 keeps the year stable under any machine time zone.
    let b = TimeBlock {
        start_unix: 13_000_000_000,
        end_unix: Some(13_003_600_000),
        category: "study".to_string(),
    };
    let label = block_label(&b, 2).unwrap();
    assert!(label.starts_with("2: study: "));
    assert!(label.contains("1970"));
    assert!(!label.contains("Ongoing"));
}

#[test]
fn out_of_range_timestamps_cannot_be_labelled() {
    let b = TimeBlock { start_unix: u64::MAX, end_unix: None, category: "x".to_string() };
    assert!(block_label(&b, 0).is_err());
}

#[test]
fn picker_lines_list_blocks_most_recent_first() {
    let data = Data {
        categories: vec![],
        blocks: vec![
            TimeBlock { start_unix: 1_000, end_unix: Some(2_000), category: "old".to_string() },
            TimeBlock { start_unix: 3_000, end_unix: None, category: "recent".to_string() },
        ],
    };
    let lines = picker_lines(&data).unwrap();
    assert_eq!(lines.len(), 2);
    assert!(lines[0].starts_with("0: recent: "));
    assert!(lines[1].starts_with("1: old: "));
}

#[test]
fn tick_fires_once_a_second() {
    assert_eq!(tick_advance(0, 16), (16, false));
    assert_eq!(tick_advance(976, 16), (992, false));
    assert_eq!(tick_advance(992, 16), (0, true));
    assert_eq!(tick_advance(u64::MAX, 16), (0, true));
}
