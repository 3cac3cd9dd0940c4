//! The error model: every rejected precondition is a named condition,
//! and each error renders a human-readable message whose exact text the
//! contracts pin down.

use vstd::prelude::*;
use crate::text::{dec_str, u64_to_string};

verus! {

/// A failed command: validation, state, addressing, or interruption.
#[derive(Clone, Copy, Debug, PartialEq, Eq, Structural)]
pub enum LedgerError {
    /// A timer is already running, so a new one cannot start.
    TimerAlreadyRunning,
    /// The running timer is open-ended, so its end cannot be shifted.
    NoEndTime,
    /// The ledger holds no blocks, so none can be edited or deleted.
    EmptyLedger,
    /// An explicit order number conflicts with the `last` flag.
    MismatchedOrder,
    /// The order number `selected` does not address any of the `len` blocks.
    OrderOutOfRange { selected: u32, len: u64 },
    /// Neither a duration nor an end time was supplied for a new block.
    NeitherDurationNorEnd,
    /// Both a duration and an end time were supplied at once.
    BothDurationAndEnd,
    /// An edit command carried no field to change.
    NoModifications,
    /// The user cancelled an interactive selection.
    Interrupted,
    /// A timestamp lies beyond the supported civil-time range.
    TimestampOutOfRange,
    /// A shift would move a timestamp outside the representable range.
    TimestampOverflow,
    /// A timestamp string could not be parsed.
    InvalidTimestamp,
}

/// The message each ledger error renders, character for character; the
/// addressing error names the rejected number and the block count.
pub open spec fn ledger_error_text(e: LedgerError) -> Seq<char> {
    match e {
        LedgerError::TimerAlreadyRunning => "Timer already started!"@,
        LedgerError::NoEndTime => "Timer does not have a set end time"@,
        LedgerError::EmptyLedger => "You do not have any time blocks stored. Create one with `zyr plan add` or `zyr timer start`"@,
        LedgerError::MismatchedOrder => "Mismatched order numbers! Either manually provide the order number or use --last, but not both at the same time."@,
        LedgerError::OrderOutOfRange { selected, len } => "This order number does not exist. The number you selected was "@
            + dec_str(selected as nat)
            + ", which is greater than the total number of blocks, which is "@ + dec_str(
            len as nat,
        ),
        LedgerError::NeitherDurationNorEnd => "Either the time block duration or end time must be set!"@,
        LedgerError::BothDurationAndEnd => "The time block duration and end time cannot both be set at the same time! Please choose only one of them."@,
        LedgerError::NoModifications => "No modifications were provided. Try running zyr plan edit --help to see the intended usage."@,
        LedgerError::Interrupted => "Interrupt signal"@,
        LedgerError::TimestampOutOfRange => "This timestamp is too far in the future to be displayed"@,
        LedgerError::TimestampOverflow => "This change would move a timestamp outside the supported range"@,
        LedgerError::InvalidTimestamp => "The timestamp could not be parsed"@,
    }
}

impl LedgerError {
    /// Renders [`ledger_error_text`]: the description naming the
    /// violated condition.
    pub fn message(&self) -> (m: String)
        ensures
            m@ == ledger_error_text(*self),
    {
        match self {
            LedgerError::TimerAlreadyRunning => "Timer already started!".to_owned(),
            LedgerError::NoEndTime => "Timer does not have a set end time".to_owned(),
            LedgerError::EmptyLedger => "You do not have any time blocks stored. Create one with `zyr plan add` or `zyr timer start`".to_owned(),
            LedgerError::MismatchedOrder => "Mismatched order numbers! Either manually provide the order number or use --last, but not both at the same time.".to_owned(),
            LedgerError::OrderOutOfRange { selected, len } => {
                let mut m = "This order number does not exist. The number you selected was ".to_owned();
                m.append(u64_to_string(*selected as u64).as_str());
                m.append(", which is greater than the total number of blocks, which is ");
                m.append(u64_to_string(*len).as_str());
                proof {
                    assert(m@ =~= ledger_error_text(*self));
                }
                m
            },
            LedgerError::NeitherDurationNorEnd => "Either the time block duration or end time must be set!".to_owned(),
            LedgerError::BothDurationAndEnd => "The time block duration and end time cannot both be set at the same time! Please choose only one of them.".to_owned(),
            LedgerError::NoModifications => "No modifications were provided. Try running zyr plan edit --help to see the intended usage.".to_owned(),
            LedgerError::Interrupted => "Interrupt signal".to_owned(),
            LedgerError::TimestampOutOfRange => "This timestamp is too far in the future to be displayed".to_owned(),
            LedgerError::TimestampOverflow => "This change would move a timestamp outside the supported range".to_owned(),
            LedgerError::InvalidTimestamp => "The timestamp could not be parsed".to_owned(),
        }
    }
}

/// A rejected duration string, by the condition that rejected it.
#[derive(Clone, Copy, Debug, PartialEq, Eq, Structural)]
pub enum DurationError {
    /// A unit letter arrived with no digits before it, or the digit run
    /// does not fit in 64 bits.
    InvalidNumber,
    /// A letter other than `h`, `m` or `s` was used as a unit.
    UnknownUnit { unit: char },
    /// The string ended in a digit run with no unit after it.
    TrailingNumber,
    /// The accumulated total does not fit in 64 bits of seconds.
    Overflow,
}

/// The message each duration error renders, character for character.
pub open spec fn duration_error_text(e: DurationError) -> Seq<char> {
    match e {
        DurationError::InvalidNumber => "Invalid number in the duration string"@,
        DurationError::UnknownUnit { unit: _ } => "Unknown duration unit"@,
        DurationError::TrailingNumber => "Trailing number without unit in the duration string"@,
        DurationError::Overflow => "The duration is too large"@,
    }
}

impl DurationError {
    /// Renders [`duration_error_text`]: the description naming the
    /// violated condition.
    pub fn message(&self) -> (m: String)
        ensures
            m@ == duration_error_text(*self),
    {
        match self {
            DurationError::InvalidNumber => "Invalid number in the duration string".to_owned(),
            DurationError::UnknownUnit { unit: _ } => "Unknown duration unit".to_owned(),
            DurationError::TrailingNumber => "Trailing number without unit in the duration string".to_owned(),
            DurationError::Overflow => "The duration is too large".to_owned(),
        }
    }
}

} // verus!
