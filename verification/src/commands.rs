//! The command layer: each subcommand is a decision function from the
//! ledger (and the clock's instant) to a result and a next state. Outward
//! action — saving, the live display, the picker, the confirmation
//! prompt — is handed back as an [`Outcome`] for the caller to perform.

use vstd::prelude::*;
use crate::clock::since_unix;
use crate::domain::{is_running_block, running_timer_spec, sat_add, Data, TimeBlock, Timer};
use crate::domain::lemma_running_block_found;
use crate::errors::LedgerError;

verus! {

/// What a command asks its caller to do next.
#[derive(Debug, Clone, Copy, PartialEq, Eq)]
pub enum Outcome {
    /// Nothing further: the ledger holds the result.
    Done,
    /// Report that no timer is running.
    NoTimer,
    /// Report that there was no timer to end.
    NoTimerToEnd,
    /// Report that the timer was stopped.
    TimerStopped,
    /// Enter the live display for this timer.
    Show(Timer),
    /// Run the block picker, then resume with the chosen position.
    NeedsPicker,
    /// Ask for confirmation, then finish deleting the block at this
    /// absolute position.
    ConfirmDelete(usize),
}

/// A command's decision logic, run against the ledger.
pub trait Executable {
    /// Decides the command: mutates the ledger where nothing outward is
    /// needed, and otherwise hands back what to do. The category list is
    /// never touched, and a failed command leaves the blocks exactly as
    /// they were, so the ledger is persisted in its pre-command state.
    fn execute(&self, data: &mut Data) -> (r: Result<Outcome, LedgerError>)
        ensures
            final(data).cats() == old(data).cats(),
            r is Err ==> final(data).blocks@ == old(data).blocks@,
    ;
}

/// The preset end a new timer gets from an optional duration.
pub open spec fn start_end_spec(duration_ms: Option<u64>, now: u64) -> Option<u64> {
    match duration_ms {
        Some(d) => Some(sat_add(now, d)),
        Option::None => Option::None,
    }
}

/// How starting a timer at instant `now` relates the old block sequence
/// `pre`, the new one `post`, and the result `r`: while a block is still
/// running it fails and changes nothing; otherwise it appends one block
/// starting at `now` under the given category.
pub open spec fn start_transition(
    pre: Seq<TimeBlock>,
    post: Seq<TimeBlock>,
    category: Seq<char>,
    duration_ms: Option<u64>,
    now: u64,
    r: Result<(), LedgerError>,
) -> bool {
    if running_timer_spec(pre, now) is Some {
        &&& r == Err::<(), LedgerError>(LedgerError::TimerAlreadyRunning)
        &&& post == pre
    } else {
        &&& r == Ok::<(), LedgerError>(())
        &&& post.len() == pre.len() + 1
        &&& post.drop_last() == pre
        &&& post.last().start_unix == now
        &&& post.last().end_unix == start_end_spec(duration_ms, now)
        &&& post.last().category@ == category
    }
}

/// How shifting the running timer's end by `delta` relates `pre`, `post`
/// and the result: with no running timer nothing changes (`Ok(false)`);
/// with an open-ended one it is the no-end-time error; when the shifted
/// end would leave the representable range it is the overflow error; and
/// otherwise the last block is replaced by the shifted timer under the
/// last block's category (`Ok(true)`). With `forward` the end moves
/// later, without it earlier.
pub open spec fn shift_transition(
    pre: Seq<TimeBlock>,
    post: Seq<TimeBlock>,
    delta: u64,
    forward: bool,
    now: u64,
    r: Result<bool, LedgerError>,
) -> bool {
    match running_timer_spec(pre, now) {
        Option::None => r == Ok::<bool, LedgerError>(false) && post == pre,
        Some(t) => match t.end_unix {
            Option::None => r == Err::<bool, LedgerError>(LedgerError::NoEndTime) && post == pre,
            Some(e) => {
                let fits = if forward {
                    e + delta <= u64::MAX
                } else {
                    delta <= e
                };
                if !fits {
                    r == Err::<bool, LedgerError>(LedgerError::TimestampOverflow) && post == pre
                } else {
                    let shifted = if forward {
                        (e + delta) as u64
                    } else {
                        (e - delta) as u64
                    };
                    &&& r == Ok::<bool, LedgerError>(true)
                    &&& pre.len() > 0
                    &&& post.len() == pre.len()
                    &&& post.drop_last() == pre.drop_last()
                    &&& post.last().start_unix == t.start_unix
                    &&& post.last().end_unix == Some(shifted)
                    &&& post.last().category@ == pre.last().category@
                }
            },
        },
    }
}

/// How ending the running timer at instant `now` relates `pre`, `post`
/// and the result: with no running timer nothing changes (`false`);
/// otherwise the last block is replaced by the timer closed at `now`,
/// under the last block's category.
pub open spec fn end_transition(
    pre: Seq<TimeBlock>,
    post: Seq<TimeBlock>,
    now: u64,
    r: bool,
) -> bool {
    match running_timer_spec(pre, now) {
        Option::None => !r && post == pre,
        Some(t) => {
            &&& r
            &&& pre.len() > 0
            &&& post.len() == pre.len()
            &&& post.drop_last() == pre.drop_last()
            &&& post.last().start_unix == t.start_unix
            &&& post.last().end_unix == Some(now)
            &&& post.last().category@ == pre.last().category@
        },
    }
}

/// A running block somewhere in the ledger means starting fails with the
/// running-timer state error and leaves the blocks unchanged.
pub proof fn law_start_fails_while_running(
    pre: Seq<TimeBlock>,
    post: Seq<TimeBlock>,
    category: Seq<char>,
    duration_ms: Option<u64>,
    now: u64,
    r: Result<(), LedgerError>,
)
    requires
        exists|i: int| 0 <= i < pre.len() && is_running_block(pre[i], now),
        start_transition(pre, post, category, duration_ms, now, r),
    ensures
        r == Err::<(), LedgerError>(LedgerError::TimerAlreadyRunning),
        post == pre,
{
    lemma_running_block_found(pre, now);
}

/// The unit-valued result a dispatch stands for: the outcome dropped.
pub open spec fn strip_outcome(r: Result<Outcome, LedgerError>) -> Result<(), LedgerError> {
    match r {
        Ok(_) => Ok(()),
        Err(e) => Err(e),
    }
}

/// The applied/not-applied result a shift dispatch stands for: `Done`
/// says the shift was applied, any other outcome that no timer ran.
pub open spec fn shift_result_of(r: Result<Outcome, LedgerError>) -> Result<bool, LedgerError> {
    match r {
        Ok(o) => Ok(o is Done),
        Err(e) => Err(e),
    }
}

/// The timer a show dispatch hands out, if any.
pub open spec fn shown_timer(r: Result<Outcome, LedgerError>) -> Option<Timer> {
    match r {
        Ok(o) => match o {
            Outcome::Show(t) => Some(t),
            _ => Option::None,
        },
        Err(_) => Option::None,
    }
}

/// The timer subcommands: start, delay, advance, end, show.
#[derive(Debug, Clone, PartialEq, Eq)]
pub enum TimerCommands {
    /// Start a new timer under a category, counting down when a duration
    /// is preset, and optionally enter the live display at once.
    Start { category: String, duration_ms: Option<u64>, show: bool },
    /// Make the timer end later.
    Add { duration_ms: u64 },
    /// Make the timer end earlier.
    Sub { duration_ms: u64 },
    /// Stop the currently running timer.
    End,
    /// Show the currently running timer.
    Show,
}

impl TimerCommands {
    /// Starts a timer as of instant `now`.
    pub fn exec_start_at(
        category: &str,
        duration_ms: Option<u64>,
        now: u64,
        data: &mut Data,
    ) -> (r: Result<(), LedgerError>)
        ensures
            start_transition(old(data).blocks@, final(data).blocks@, category@, duration_ms, now, r),
            final(data).cats() == old(data).cats(),
    {
        if data.get_running_timer_at(now).is_some() {
            return Err(LedgerError::TimerAlreadyRunning);
        }
        let timer = match duration_ms {
            Some(d) => {
                let end = match now.checked_add(d) {
                    Some(e) => e,
                    Option::None => u64::MAX,
                };
                Timer { start_unix: now, end_unix: Some(end) }
            },
            Option::None => Timer { start_unix: now, end_unix: Option::None },
        };
        data.push(timer.to_block(category));
        proof {
            assert(data.blocks@.drop_last() =~= old(data).blocks@);
        }
        Ok(())
    }

    /// Starts a timer at the clock's current instant.
    pub fn exec_start(category: &str, duration_ms: Option<u64>, data: &mut Data) -> (r: Result<
        (),
        LedgerError,
    >)
        ensures
            exists|now: u64|
                start_transition(
                    old(data).blocks@,
                    final(data).blocks@,
                    category@,
                    duration_ms,
                    now,
                    r,
                ),
            final(data).cats() == old(data).cats(),
    {
        let now = since_unix();
        let r = Self::exec_start_at(category, duration_ms, now, data);
        proof {
            assert(start_transition(old(data).blocks@, data.blocks@, category@, duration_ms, now, r));
        }
        r
    }

    /// Shifts the running timer's end by `duration_ms`, later when
    /// `forward` and earlier otherwise, as of instant `now`.
    fn exec_shift_at(duration_ms: u64, forward: bool, now: u64, data: &mut Data) -> (r: Result<
        bool,
        LedgerError,
    >)
        ensures
            shift_transition(
                old(data).blocks@,
                final(data).blocks@,
                duration_ms,
                forward,
                now,
                r,
            ),
            final(data).cats() == old(data).cats(),
    {
        let running = data.get_running_timer_at(now);
        let mut timer = match running {
            Some(t) => t,
            Option::None => {
                return Ok(false);
            },
        };
        let e = match timer.end_unix {
            Some(e) => e,
            Option::None => {
                return Err(LedgerError::NoEndTime);
            },
        };
        if forward {
            if duration_ms > u64::MAX - e {
                return Err(LedgerError::TimestampOverflow);
            }
            timer.add(duration_ms);
        } else {
            if duration_ms > e {
                return Err(LedgerError::TimestampOverflow);
            }
            timer.sub(duration_ms);
        }
        let category = data.get(data.len() - 1).category.clone();
        let _popped = data.pop_last();
        data.push(timer.to_block(category.as_str()));
        proof {
            assert(data.blocks@.drop_last() =~= old(data).blocks@.drop_last());
            assert(old(data).blocks@.last() == old(data).blocks@[old(data).blocks@.len() - 1]);
        }
        Ok(true)
    }

    /// Delays the running timer's end by `duration_ms`, as of `now`.
    pub fn exec_add_at(duration_ms: u64, now: u64, data: &mut Data) -> (r: Result<
        bool,
        LedgerError,
    >)
        ensures
            shift_transition(old(data).blocks@, final(data).blocks@, duration_ms, true, now, r),
            final(data).cats() == old(data).cats(),
    {
        Self::exec_shift_at(duration_ms, true, now, data)
    }

    /// Delays the running timer's end at the clock's current instant.
    pub fn exec_add(duration_ms: u64, data: &mut Data) -> (r: Result<bool, LedgerError>)
        ensures
            exists|now: u64|
                shift_transition(
                    old(data).blocks@,
                    final(data).blocks@,
                    duration_ms,
                    true,
                    now,
                    r,
                ),
            final(data).cats() == old(data).cats(),
    {
        let now = since_unix();
        let r = Self::exec_shift_at(duration_ms, true, now, data);
        proof {
            assert(shift_transition(old(data).blocks@, data.blocks@, duration_ms, true, now, r));
        }
        r
    }

    /// Moves the running timer's end earlier by `duration_ms`, as of `now`.
    pub fn exec_sub_at(duration_ms: u64, now: u64, data: &mut Data) -> (r: Result<
        bool,
        LedgerError,
    >)
        ensures
            shift_transition(old(data).blocks@, final(data).blocks@, duration_ms, false, now, r),
            final(data).cats() == old(data).cats(),
    {
        Self::exec_shift_at(duration_ms, false, now, data)
    }

    /// Moves the running timer's end earlier at the clock's current instant.
    pub fn exec_sub(duration_ms: u64, data: &mut Data) -> (r: Result<bool, LedgerError>)
        ensures
            exists|now: u64|
                shift_transition(
                    old(data).blocks@,
                    final(data).blocks@,
                    duration_ms,
                    false,
                    now,
                    r,
                ),
            final(data).cats() == old(data).cats(),
    {
        let now = since_unix();
        let r = Self::exec_shift_at(duration_ms, false, now, data);
        proof {
            assert(shift_transition(old(data).blocks@, data.blocks@, duration_ms, false, now, r));
        }
        r
    }

    /// Ends the running timer as of instant `now`.
    pub fn exec_end_at(now: u64, data: &mut Data) -> (r: bool)
        ensures
            end_transition(old(data).blocks@, final(data).blocks@, now, r),
            final(data).cats() == old(data).cats(),
    {
        let running = data.get_running_timer_at(now);
        let mut timer = match running {
            Some(t) => t,
            Option::None => {
                return false;
            },
        };
        timer.end_unix = Some(now);
        let category = data.get(data.len() - 1).category.clone();
        let _popped = data.pop_last();
        data.push(timer.to_block(category.as_str()));
        proof {
            assert(data.blocks@.drop_last() =~= old(data).blocks@.drop_last());
            assert(old(data).blocks@.last() == old(data).blocks@[old(data).blocks@.len() - 1]);
        }
        true
    }

    /// Ends the running timer at the clock's current instant.
    pub fn exec_end(data: &mut Data) -> (r: bool)
        ensures
            exists|now: u64|
                end_transition(old(data).blocks@, final(data).blocks@, now, r),
            final(data).cats() == old(data).cats(),
    {
        let now = since_unix();
        let r = Self::exec_end_at(now, data);
        proof {
            assert(end_transition(old(data).blocks@, data.blocks@, now, r));
        }
        r
    }

    /// The show decision: the running timer to display, if any.
    pub fn exec_show(data: &Data) -> (r: Option<Timer>)
        ensures
            exists|now: u64| r == running_timer_spec(data.blocks@, now),
    {
        data.get_running_timer()
    }
}

impl Executable for TimerCommands {
    fn execute(&self, data: &mut Data) -> (r: Result<Outcome, LedgerError>)
        ensures
            (*self matches TimerCommands::Start { category, duration_ms, show } ==> {
                &&& exists|now: u64|
                    #[trigger] start_transition(
                        old(data).blocks@,
                        final(data).blocks@,
                        category@,
                        duration_ms,
                        now,
                        strip_outcome(r),
                    )
                &&& (r is Ok && !show ==> r->Ok_0 == Outcome::Done)
                &&& (r is Ok && show ==> (r->Ok_0 is Show || r->Ok_0 is NoTimer)
                    && exists|later: u64|
                    #[trigger] running_timer_spec(final(data).blocks@, later) == shown_timer(r))
            }),
            (*self matches TimerCommands::Add { duration_ms } ==> {
                &&& (r is Ok ==> r->Ok_0 is Done || r->Ok_0 is NoTimer)
                &&& exists|now: u64|
                    #[trigger] shift_transition(
                        old(data).blocks@,
                        final(data).blocks@,
                        duration_ms,
                        true,
                        now,
                        shift_result_of(r),
                    )
            }),
            (*self matches TimerCommands::Sub { duration_ms } ==> {
                &&& (r is Ok ==> r->Ok_0 is Done || r->Ok_0 is NoTimer)
                &&& exists|now: u64|
                    #[trigger] shift_transition(
                        old(data).blocks@,
                        final(data).blocks@,
                        duration_ms,
                        false,
                        now,
                        shift_result_of(r),
                    )
            }),
            (*self matches TimerCommands::End ==> {
                &&& r is Ok
                &&& (r->Ok_0 is TimerStopped || r->Ok_0 is NoTimerToEnd)
                &&& exists|now: u64|
                    #[trigger] end_transition(
                        old(data).blocks@,
                        final(data).blocks@,
                        now,
                        r->Ok_0 is TimerStopped,
                    )
            }),
            (*self matches TimerCommands::Show ==> {
                &&& r is Ok
                &&& (r->Ok_0 is Show || r->Ok_0 is NoTimer)
                &&& final(data).blocks@ == old(data).blocks@
                &&& exists|now: u64|
                    #[trigger] running_timer_spec(old(data).blocks@, now) == shown_timer(r)
            }),
    {
        match self {
            TimerCommands::Start { category, duration_ms, show } => {
                match Self::exec_start(category.as_str(), *duration_ms, data) {
                    Ok(()) => {},
                    Err(e) => {
                        proof {
                            assert(strip_outcome(Err::<Outcome, LedgerError>(e)) == Err::<
                                (),
                                LedgerError,
                            >(e));
                        }
                        return Err(e);
                    },
                }
                if *show {
                    match Self::exec_show(data) {
                        Some(t) => {
                            proof {
                                assert(strip_outcome(
                                    Ok::<Outcome, LedgerError>(Outcome::Show(t)),
                                ) == Ok::<(), LedgerError>(()));
                                assert(shown_timer(Ok::<Outcome, LedgerError>(Outcome::Show(t)))
                                    == Some(t));
                            }
                            Ok(Outcome::Show(t))
                        },
                        Option::None => {
                            proof {
                                assert(strip_outcome(Ok::<Outcome, LedgerError>(Outcome::NoTimer))
                                    == Ok::<(), LedgerError>(()));
                                assert(shown_timer(Ok::<Outcome, LedgerError>(Outcome::NoTimer))
                                    is None);
                            }
                            Ok(Outcome::NoTimer)
                        },
                    }
                } else {
                    proof {
                        assert(strip_outcome(Ok::<Outcome, LedgerError>(Outcome::Done)) == Ok::<
                            (),
                            LedgerError,
                        >(()));
                    }
                    Ok(Outcome::Done)
                }
            },
            TimerCommands::Add { duration_ms } => {
                match Self::exec_add(*duration_ms, data) {
                    Ok(true) => Ok(Outcome::Done),
                    Ok(false) => Ok(Outcome::NoTimer),
                    Err(e) => Err(e),
                }
            },
            TimerCommands::Sub { duration_ms } => {
                match Self::exec_sub(*duration_ms, data) {
                    Ok(true) => Ok(Outcome::Done),
                    Ok(false) => Ok(Outcome::NoTimer),
                    Err(e) => Err(e),
                }
            },
            TimerCommands::End => {
                let stopped = Self::exec_end(data);
                let r: Result<Outcome, LedgerError> = if stopped {
                    Ok(Outcome::TimerStopped)
                } else {
                    Ok(Outcome::NoTimerToEnd)
                };
                proof {
                    assert((r->Ok_0 is TimerStopped) == stopped);
                    let now0 = choose|now: u64|
                        end_transition(old(data).blocks@, data.blocks@, now, stopped);
                    assert(end_transition(
                        old(data).blocks@,
                        data.blocks@,
                        now0,
                        r->Ok_0 is TimerStopped,
                    ));
                }
                r
            },
            TimerCommands::Show => {
                match Self::exec_show(data) {
                    Some(t) => Ok(Outcome::Show(t)),
                    Option::None => Ok(Outcome::NoTimer),
                }
            },
        }
    }
}

} // verus!
