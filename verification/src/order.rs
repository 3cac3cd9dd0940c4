//! Relative-order addressing: a user-facing order number counts back from
//! the most recently inserted block (0 = most recent); it is translated
//! into an absolute position in the stored sequence, or the interactive
//! picker is requested when no number was given.

use vstd::prelude::*;
use crate::errors::LedgerError;

verus! {

/// How an order number and the `last` flag combine: no number and no flag
/// asks for the picker (`None`); the flag alone, or with an explicit `0`,
/// means the most recent block; the flag with any other explicit number is
/// ambiguous and rejected; a bare number stands for itself.
pub open spec fn resolve_order_spec(order_number: Option<u32>, last: bool) -> Result<
    Option<u32>,
    LedgerError,
> {
    match (order_number, last) {
        (Option::None, false) => Ok(Option::None),
        (Option::None, true) => Ok(Some(0u32)),
        (Some(x), true) => if x == 0 {
            Ok(Some(0u32))
        } else {
            Err(LedgerError::MismatchedOrder)
        },
        (Some(x), false) => Ok(Some(x)),
    }
}

/// Decides [`resolve_order_spec`]: `Ok(None)` asks for the picker.
pub fn resolve_order(order_number: &Option<u32>, last: bool) -> (r: Result<
    Option<u32>,
    LedgerError,
>)
    ensures
        r == resolve_order_spec(*order_number, last),
{
    match (order_number, last) {
        (Option::None, false) => Ok(Option::None),
        (Option::None, true) => Ok(Some(0)),
        (Some(x), true) => if *x == 0 {
            Ok(Some(0))
        } else {
            Err(LedgerError::MismatchedOrder)
        },
        (Some(x), false) => Ok(Some(*x)),
    }
}

/// The absolute store position a reversed position addresses in a ledger
/// of `len` blocks: `len - 1 - rev`, or the addressing error naming the
/// rejected number and the block count.
pub open spec fn index_from_reversed_spec(rev: u32, len: usize) -> Result<usize, LedgerError> {
    if rev < len {
        Ok((len - 1 - rev) as usize)
    } else {
        Err(LedgerError::OrderOutOfRange { selected: rev, len: len as u64 })
    }
}

/// Decides [`index_from_reversed_spec`].
pub fn index_from_reversed(rev: u32, len: usize) -> (r: Result<usize, LedgerError>)
    ensures
        r == index_from_reversed_spec(rev, len),
{
    if (rev as u64) < (len as u64) {
        Ok(len - 1 - (rev as usize))
    } else {
        Err(LedgerError::OrderOutOfRange { selected: rev, len: len as u64 })
    }
}

/// For a ledger of length `len`, reversed position `0` always resolves to
/// the last absolute index and reversed position `len - 1` to the first,
/// while every reversed position at or past `len` fails with the
/// addressing error.
pub proof fn law_order_addressing(len: usize)
    requires
        len > 0,
    ensures
        index_from_reversed_spec(0, len) == Ok::<usize, LedgerError>((len - 1) as usize),
        len - 1 <= u32::MAX ==> index_from_reversed_spec((len - 1) as u32, len) == Ok::<
            usize,
            LedgerError,
        >(0usize),
        forall|rev: u32| rev >= len ==> #[trigger] index_from_reversed_spec(rev, len) is Err,
{
}

} // verus!
