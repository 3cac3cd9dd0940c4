//! The duration string grammar: a sequence of `<digits><unit>` pairs with
//! `unit` one of `h`, `m`, `s`, in any order, values accumulating;
//! whitespace between characters is ignored; the empty string is zero.
//!
//! Digits are buffered until a unit letter arrives; a whitespace character
//! leaves the buffer as it is, so the digits of `"1 2m"` join into `12`.
//! A unit with no digits before it, or a digit run that does not fit in
//! 64 bits, is an invalid number; a trailing digit run without a unit and
//! an unknown unit letter are errors; so is a total beyond 64 bits of
//! seconds.

use vstd::prelude::*;
use crate::errors::{DurationError, LedgerError};

verus! {

/// An ASCII decimal digit.
pub open spec fn is_digit(c: char) -> bool {
    48 <= c as u32 <= 57
}

/// The value of an ASCII decimal digit.
pub open spec fn digit_val(c: char) -> nat {
    (c as u32 - 48) as nat
}

/// A whitespace character: anything with the Unicode `White_Space`
/// property — the ASCII blanks, next line, the no-break and typographic
/// spaces, the line and paragraph separators, and the ideographic space.
pub open spec fn is_space(c: char) -> bool {
    ||| (c >= '\u{9}' && c <= '\u{d}')
    ||| c == ' '
    ||| c == '\u{85}'
    ||| c == '\u{a0}'
    ||| c == '\u{1680}'
    ||| (c >= '\u{2000}' && c <= '\u{200a}')
    ||| c == '\u{2028}'
    ||| c == '\u{2029}'
    ||| c == '\u{202f}'
    ||| c == '\u{205f}'
    ||| c == '\u{3000}'
}

/// The value of a run of decimal digits, most significant first.
pub open spec fn digits_val(ds: Seq<char>) -> nat
    decreases ds.len(),
{
    if ds.len() == 0 {
        0
    } else {
        digits_val(ds.drop_last()) * 10 + digit_val(ds.last())
    }
}

/// The number of seconds one unit letter stands for, or `None` for an
/// unknown letter.
pub open spec fn unit_secs(c: char) -> Option<nat> {
    if c == 'h' {
        Some(3600 as nat)
    } else if c == 'm' {
        Some(60 as nat)
    } else if c == 's' {
        Some(1 as nat)
    } else {
        None
    }
}

/// One parsing step: `secs` seconds accumulated so far, `num` the buffered
/// digit run, `c` the next character.
pub open spec fn duration_step(secs: u64, num: Seq<char>, c: char) -> Result<
    (u64, Seq<char>),
    DurationError,
> {
    if is_digit(c) {
        Ok((secs, num.push(c)))
    } else if is_space(c) {
        Ok((secs, num))
    } else if num.len() == 0 || digits_val(num) > u64::MAX {
        Err(DurationError::InvalidNumber)
    } else {
        match unit_secs(c) {
            Some(mult) => {
                if secs + digits_val(num) * mult > u64::MAX {
                    Err(DurationError::Overflow)
                } else {
                    Ok(((secs + digits_val(num) * mult) as u64, Seq::<char>::empty()))
                }
            },
            None => Err(DurationError::UnknownUnit { unit: c }),
        }
    }
}

/// The grammar, from position `i` on, with `secs` and `num` accumulated.
pub open spec fn duration_from(s: Seq<char>, i: int, secs: u64, num: Seq<char>) -> Result<
    u64,
    DurationError,
>
    decreases s.len() - i,
{
    if i < 0 || i >= s.len() {
        if num.len() == 0 {
            Ok(secs)
        } else {
            Err(DurationError::TrailingNumber)
        }
    } else {
        match duration_step(secs, num, s[i]) {
            Ok((secs2, num2)) => duration_from(s, i + 1, secs2, num2),
            Err(e) => Err(e),
        }
    }
}

/// What [`parse_duration`] returns: the duration of `s` in seconds, or the
/// condition that rejected `s`.
pub open spec fn parse_duration_spec(s: Seq<char>) -> Result<u64, DurationError> {
    duration_from(s, 0, 0, Seq::<char>::empty())
}

/// Decides whether `c` is an ASCII decimal digit.
fn check_digit(c: char) -> (r: bool)
    ensures
        r == is_digit(c),
{
    let u = c as u32;
    48 <= u && u <= 57
}

/// Decides whether `c` is whitespace.
fn check_space(c: char) -> (r: bool)
    ensures
        r == is_space(c),
{
    (c >= '\u{9}' && c <= '\u{d}') || c == ' ' || c == '\u{85}' || c == '\u{a0}' || c
        == '\u{1680}' || (c >= '\u{2000}' && c <= '\u{200a}') || c == '\u{2028}' || c
        == '\u{2029}' || c == '\u{202f}' || c == '\u{205f}' || c == '\u{3000}'
}

/// Parses a duration string like `"1h35m50s"` into whole seconds.
pub fn parse_duration(s: &str) -> (r: Result<u64, DurationError>)
    ensures
        r == parse_duration_spec(s@),
{
    let len = s.unicode_len();
    let mut i: usize = 0;
    let mut secs: u64 = 0;
    // The buffered digit run `num` of the grammar, tracked by value:
    // its emptiness, its value, and whether it outgrew 64 bits.
    let ghost mut num: Seq<char> = Seq::<char>::empty();
    let mut num_empty: bool = true;
    let mut num_val: u64 = 0;
    let mut num_big: bool = false;
    loop
        invariant
            i <= len,
            len == s@.len(),
            num_empty == (num.len() == 0),
            !num_big ==> num_val == digits_val(num),
            num_big ==> digits_val(num) > u64::MAX,
            parse_duration_spec(s@) == duration_from(s@, i as int, secs, num),
        decreases len - i,
    {
        if i == len {
            if num_empty {
                return Ok(secs);
            } else {
                return Err(DurationError::TrailingNumber);
            }
        }
        let c = s.get_char(i);
        if check_digit(c) {
            let d: u32 = c as u32 - 48;
            let ghost prev = num;
            proof {
                num = num.push(c);
                assert(num.drop_last() =~= prev);
                assert(digits_val(num) == digits_val(prev) * 10 + digit_val(c));
            }
            if num_big {
            } else {
                match num_val.checked_mul(10) {
                    Some(m) => {
                        match m.checked_add(d as u64) {
                            Some(v) => {
                                num_val = v;
                            },
                            None => {
                                num_big = true;
                            },
                        }
                    },
                    None => {
                        num_big = true;
                    },
                }
            }
            num_empty = false;
        } else if check_space(c) {
            // the digit buffer is kept as it is
        } else if num_empty || num_big {
            return Err(DurationError::InvalidNumber);
        } else {
            let mult: u64 = if c == 'h' {
                3600
            } else if c == 'm' {
                60
            } else if c == 's' {
                1
            } else {
                return Err(DurationError::UnknownUnit { unit: c });
            };
            match num_val.checked_mul(mult) {
                Some(add_secs) => {
                    match secs.checked_add(add_secs) {
                        Some(total) => {
                            secs = total;
                        },
                        None => {
                            return Err(DurationError::Overflow);
                        },
                    }
                },
                None => {
                    return Err(DurationError::Overflow);
                },
            }
            proof {
                num = Seq::<char>::empty();
            }
            num_empty = true;
            num_val = 0;
            num_big = false;
        }
        i = i + 1;
    }
}

/// What the weak RFC 3339 parser reads from a timestamp string: the
/// instant in epoch milliseconds, or nothing when the string is rejected.
pub uninterp spec fn rfc3339_weak_millis(s: Seq<char>) -> Option<u64>;

/// Relies on humantime::parse_rfc3339_weak: it reads `YYYY-MM-DD HH:MM:SS`
/// (with optional fraction and UTC suffix) as a UTC instant, a pure
/// function of the string, accepting years 1970 through 9999 — so a
/// parsed instant is at most the year 9999 in milliseconds.
#[verifier::external_body]
fn parse_rfc3339_weak_ms(s: &str) -> (r: Option<u64>)
    ensures
        r == rfc3339_weak_millis(s@),
        r is Some ==> r->0 <= 260_000_000_000_000,
{
    match humantime::parse_rfc3339_weak(s) {
        Ok(st) => match st.duration_since(std::time::UNIX_EPOCH) {
            Ok(d) => Some(d.as_millis() as u64),
            Err(_) => None,
        },
        Err(_) => None,
    }
}

/// Parses a permissive RFC 3339 timestamp string into epoch milliseconds;
/// a string the grammar rejects is the invalid-timestamp error.
pub fn parse_timestamp(s: &str) -> (r: Result<u64, LedgerError>)
    ensures
        r is Ok <==> rfc3339_weak_millis(s@) is Some,
        r is Ok ==> r->Ok_0 == rfc3339_weak_millis(s@)->0 && r->Ok_0 <= 260_000_000_000_000,
        r is Err ==> r->Err_0 == LedgerError::InvalidTimestamp,
{
    match parse_rfc3339_weak_ms(s) {
        Some(ms) => Ok(ms),
        Option::None => Err(LedgerError::InvalidTimestamp),
    }
}

/// The milliseconds of a whole-second duration, stuck at the largest
/// 64-bit value.
pub fn secs_to_millis(secs: u64) -> (r: u64)
    ensures
        r == (if secs * 1000 > u64::MAX {
            u64::MAX
        } else {
            (secs * 1000) as u64
        }),
{
    match secs.checked_mul(1000) {
        Some(ms) => ms,
        Option::None => u64::MAX,
    }
}

} // verus!
