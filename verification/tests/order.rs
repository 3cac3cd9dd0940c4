use zyr::errors::LedgerError;
use zyr::order::{index_from_reversed, resolve_order};

#[test]
fn resolve_no_number_no_flag_asks_for_the_picker() {
    assert_eq!(resolve_order(&None, false), Ok(None));
}

#[test]
fn resolve_last_flag_means_most_recent() {
    assert_eq!(resolve_order(&None, true), Ok(Some(0)));
    assert_eq!(resolve_order(&Some(0), true), Ok(Some(0)));
}

#[test]
fn resolve_number_with_last_flag_is_ambiguous() {
    assert_eq!(resolve_order(&Some(3), true), Err(LedgerError::MismatchedOrder));
}

#[test]
fn resolve_bare_number_stands_for_itself() {
    assert_eq!(resolve_order(&Some(7), false), Ok(Some(7)));
}

#[test]
fn reversed_zero_is_the_last_absolute_index() {
    assert_eq!(index_from_reversed(0, 5), Ok(4));
}

#[test]
fn reversed_len_minus_one_is_the_first_absolute_index() {
    assert_eq!(index_from_reversed(4, 5), Ok(0));
}

#[test]
fn reversed_past_the_end_is_an_addressing_error() {
    assert_eq!(
        index_from_reversed(5, 5),
        Err(LedgerError::OrderOutOfRange { selected: 5, len: 5 })
    );
    assert_eq!(
        index_from_reversed(7, 5),
        Err(LedgerError::OrderOutOfRange { selected: 7, len: 5 })
    );
    assert_eq!(
        index_from_reversed(0, 0),
        Err(LedgerError::OrderOutOfRange { selected: 0, len: 0 })
    );
}

#[test]
fn addressing_error_message_names_the_numbers() {
    let e = LedgerError::OrderOutOfRange { selected: 7, len: 5 };
    assert_eq!(
        e.message(),
        "This order number does not exist. The number you selected was 7, \
         which is greater than the total number of blocks, which is 5"
    );
}
