//! The plan subcommands: creating, editing and deleting blocks by
//! relative order number, with the picker and the confirmation prompt
//! left to the caller as outcomes.

use vstd::prelude::*;
use crate::commands::{strip_outcome, Executable, Outcome};
use crate::domain::{Data, TimeBlock};
use crate::errors::LedgerError;
use crate::order::{
    index_from_reversed, index_from_reversed_spec, resolve_order, resolve_order_spec,
};

verus! {

/// The plan subcommands.
#[derive(Debug, Clone, PartialEq, Eq)]
pub enum PlanCommands {
    /// Record a finished block: a category, a start, and exactly one of a
    /// duration or an end time.
    Add { category: String, from: u64, duration_ms: Option<u64>, to: Option<u64> },
    /// Change fields of the block addressed by an order number.
    Edit {
        category: Option<String>,
        from: Option<u64>,
        duration_ms: Option<u64>,
        to: Option<u64>,
        order_number: Option<u32>,
        last: bool,
    },
    /// Delete the block addressed by an order number, after confirmation.
    Del { order_number: Option<u32>, last: bool },
}

/// How recording a block relates `pre`, `post` and the result: exactly
/// one of a duration or an end time must be given; a duration is added to
/// the start, and an end past the representable range is refused; on
/// success one closed block is appended.
pub open spec fn add_block_transition(
    pre: Seq<TimeBlock>,
    post: Seq<TimeBlock>,
    category: Seq<char>,
    from: u64,
    duration_ms: Option<u64>,
    to: Option<u64>,
    r: Result<(), LedgerError>,
) -> bool {
    match (duration_ms, to) {
        (Option::None, Option::None) => r == Err::<(), LedgerError>(
            LedgerError::NeitherDurationNorEnd,
        ) && post == pre,
        (Some(_), Some(_)) => r == Err::<(), LedgerError>(LedgerError::BothDurationAndEnd) && post
            == pre,
        (Some(d), Option::None) => if from + d > u64::MAX {
            r == Err::<(), LedgerError>(LedgerError::TimestampOverflow) && post == pre
        } else {
            appended_closed(pre, post, category, from, (from + d) as u64, r)
        },
        (Option::None, Some(t)) => appended_closed(pre, post, category, from, t, r),
    }
}

/// One closed block under `category` from `start` to `end` was appended.
pub open spec fn appended_closed(
    pre: Seq<TimeBlock>,
    post: Seq<TimeBlock>,
    category: Seq<char>,
    start: u64,
    end: u64,
    r: Result<(), LedgerError>,
) -> bool {
    &&& r == Ok::<(), LedgerError>(())
    &&& post.len() == pre.len() + 1
    &&& post.drop_last() == pre
    &&& post.last().start_unix == start
    &&& post.last().end_unix == Some(end)
    &&& post.last().category@ == category
}

/// The end an edited block gets: untouched when neither a duration nor an
/// end time is given; both at once are refused; a duration counts from the
/// (possibly edited) start; an explicit end stands as it is.
pub open spec fn edit_end_spec(
    start: u64,
    old_end: Option<u64>,
    duration_ms: Option<u64>,
    to: Option<u64>,
) -> Result<Option<u64>, LedgerError> {
    match (duration_ms, to) {
        (Option::None, Option::None) => Ok(old_end),
        (Some(_), Some(_)) => Err(LedgerError::BothDurationAndEnd),
        (Some(d), Option::None) => if start + d > u64::MAX {
            Err(LedgerError::TimestampOverflow)
        } else {
            Ok(Some((start + d) as u64))
        },
        (Option::None, Some(t)) => Ok(Some(t)),
    }
}

/// How editing the block at `index` relates `pre`, `post` and the result:
/// only that block changes; its start is replaced when `from` is given,
/// its end follows [`edit_end_spec`], and its category is replaced when
/// one is given. On an error nothing changes.
pub open spec fn edit_transition(
    pre: Seq<TimeBlock>,
    post: Seq<TimeBlock>,
    category: Option<String>,
    from: Option<u64>,
    duration_ms: Option<u64>,
    to: Option<u64>,
    index: int,
    r: Result<(), LedgerError>,
) -> bool {
    let b = pre[index];
    let start = match from {
        Some(s) => s,
        Option::None => b.start_unix,
    };
    match edit_end_spec(start, b.end_unix, duration_ms, to) {
        Err(e) => r == Err::<(), LedgerError>(e) && post == pre,
        Ok(end2) => {
            &&& r == Ok::<(), LedgerError>(())
            &&& post.len() == pre.len()
            &&& (forall|j: int| 0 <= j < pre.len() && j != index ==> post[j] == pre[j])
            &&& post[index].start_unix == start
            &&& post[index].end_unix == end2
            &&& post[index].category@ == (match category {
                Some(c) => c@,
                Option::None => b.category@,
            })
        },
    }
}

/// Whether an edit command carries no field to change.
pub open spec fn edit_fields_none(
    category: Option<String>,
    from: Option<u64>,
    duration_ms: Option<u64>,
    to: Option<u64>,
) -> bool {
    category is None && from is None && duration_ms is None && to is None
}

/// What the edit decision promises: an empty ledger and an empty edit
/// are rejected; otherwise the order number resolves (asking for the
/// picker when none was given) and the addressed block is edited.
pub open spec fn edit_outcome_spec(
    pre: Seq<TimeBlock>,
    post: Seq<TimeBlock>,
    category: Option<String>,
    from: Option<u64>,
    duration_ms: Option<u64>,
    to: Option<u64>,
    order_number: Option<u32>,
    last: bool,
    r: Result<Outcome, LedgerError>,
) -> bool {
    &&& (pre.len() == 0 ==> r == Err::<Outcome, LedgerError>(LedgerError::EmptyLedger) && post
        == pre)
    &&& (pre.len() > 0 && edit_fields_none(category, from, duration_ms, to) ==> r == Err::<
        Outcome,
        LedgerError,
    >(LedgerError::NoModifications) && post == pre)
    &&& (pre.len() > 0 && !edit_fields_none(category, from, duration_ms, to) ==> (
    match resolve_order_spec(order_number, last) {
        Err(e) => r == Err::<Outcome, LedgerError>(e) && post == pre,
        Ok(Option::None) => r == Ok::<Outcome, LedgerError>(Outcome::NeedsPicker) && post == pre,
        Ok(Some(rev)) => (match index_from_reversed_spec(rev, pre.len() as usize) {
            Err(e) => r == Err::<Outcome, LedgerError>(e) && post == pre,
            Ok(idx) => (r is Ok ==> r->Ok_0 == Outcome::Done) && edit_transition(
                pre,
                post,
                category,
                from,
                duration_ms,
                to,
                idx as int,
                strip_outcome(r),
            ),
        }),
    }))
}

/// What the delete decision promises: an empty ledger is rejected;
/// otherwise the order number resolves (asking for the picker when none
/// was given) and the addressed position is handed back for confirmation.
pub open spec fn del_outcome_spec(
    blocks: Seq<TimeBlock>,
    order_number: Option<u32>,
    last: bool,
    r: Result<Outcome, LedgerError>,
) -> bool {
    &&& (blocks.len() == 0 ==> r == Err::<Outcome, LedgerError>(LedgerError::EmptyLedger))
    &&& (blocks.len() > 0 ==> (match resolve_order_spec(order_number, last) {
        Err(e) => r == Err::<Outcome, LedgerError>(e),
        Ok(Option::None) => r == Ok::<Outcome, LedgerError>(Outcome::NeedsPicker),
        Ok(Some(rev)) => (match index_from_reversed_spec(rev, blocks.len() as usize) {
            Err(e) => r == Err::<Outcome, LedgerError>(e),
            Ok(idx) => r == Ok::<Outcome, LedgerError>(Outcome::ConfirmDelete(idx)),
        }),
    }))
}

impl PlanCommands {
    /// Records a finished block.
    pub fn exec_add(
        category: &str,
        from: u64,
        duration_ms: Option<u64>,
        to: Option<u64>,
        data: &mut Data,
    ) -> (r: Result<(), LedgerError>)
        ensures
            add_block_transition(
                old(data).blocks@,
                final(data).blocks@,
                category@,
                from,
                duration_ms,
                to,
                r,
            ),
            final(data).cats() == old(data).cats(),
    {
        let end: u64 = match (duration_ms, to) {
            (Option::None, Option::None) => {
                return Err(LedgerError::NeitherDurationNorEnd);
            },
            (Some(_), Some(_)) => {
                return Err(LedgerError::BothDurationAndEnd);
            },
            (Some(d), Option::None) => {
                match from.checked_add(d) {
                    Some(e) => e,
                    Option::None => {
                        return Err(LedgerError::TimestampOverflow);
                    },
                }
            },
            (Option::None, Some(t)) => t,
        };
        data.push(
            TimeBlock { start_unix: from, end_unix: Some(end), category: category.to_owned() },
        );
        proof {
            assert(data.blocks@.drop_last() =~= old(data).blocks@);
        }
        Ok(())
    }

    /// Edits the block at absolute position `index`.
    pub fn apply_edit(
        category: &Option<String>,
        from: Option<u64>,
        duration_ms: Option<u64>,
        to: Option<u64>,
        index: usize,
        data: &mut Data,
    ) -> (r: Result<(), LedgerError>)
        requires
            index < old(data).blocks@.len(),
        ensures
            edit_transition(
                old(data).blocks@,
                final(data).blocks@,
                *category,
                from,
                duration_ms,
                to,
                index as int,
                r,
            ),
            final(data).cats() == old(data).cats(),
    {
        let block = data.get(index);
        let start: u64 = match from {
            Some(s) => s,
            Option::None => block.start_unix,
        };
        let end2: Option<u64> = match (duration_ms, to) {
            (Option::None, Option::None) => block.end_unix,
            (Some(_), Some(_)) => {
                return Err(LedgerError::BothDurationAndEnd);
            },
            (Some(d), Option::None) => {
                match start.checked_add(d) {
                    Some(e) => Some(e),
                    Option::None => {
                        return Err(LedgerError::TimestampOverflow);
                    },
                }
            },
            (Option::None, Some(t)) => Some(t),
        };
        let new_category: String = match category {
            Some(c) => c.clone(),
            Option::None => block.category.clone(),
        };
        data.set_block(index, TimeBlock { start_unix: start, end_unix: end2, category: new_category });
        Ok(())
    }

    /// Edits the block a picker choice addresses.
    pub fn exec_edit_chosen(
        category: &Option<String>,
        from: Option<u64>,
        duration_ms: Option<u64>,
        to: Option<u64>,
        rev: u32,
        data: &mut Data,
    ) -> (r: Result<(), LedgerError>)
        ensures
            (match index_from_reversed_spec(rev, old(data).blocks@.len() as usize) {
                Err(e) => r == Err::<(), LedgerError>(e) && final(data).blocks@ == old(data).blocks@,
                Ok(idx) => edit_transition(
                    old(data).blocks@,
                    final(data).blocks@,
                    *category,
                    from,
                    duration_ms,
                    to,
                    idx as int,
                    r,
                ),
            }),
            final(data).cats() == old(data).cats(),
    {
        let index = match index_from_reversed(rev, data.len()) {
            Ok(i) => i,
            Err(e) => {
                return Err(e);
            },
        };
        Self::apply_edit(category, from, duration_ms, to, index, data)
    }

    /// The edit decision: rejects an empty ledger and an empty edit, asks
    /// for the picker when no order number was given, and otherwise edits
    /// the addressed block.
    pub fn exec_edit(
        category: &Option<String>,
        from: Option<u64>,
        duration_ms: Option<u64>,
        to: Option<u64>,
        order_number: &Option<u32>,
        last: bool,
        data: &mut Data,
    ) -> (r: Result<Outcome, LedgerError>)
        ensures
            edit_outcome_spec(
                old(data).blocks@,
                final(data).blocks@,
                *category,
                from,
                duration_ms,
                to,
                *order_number,
                last,
                r,
            ),
            final(data).cats() == old(data).cats(),
    {
        if data.len() == 0 {
            return Err(LedgerError::EmptyLedger);
        }
        if category.is_none() && from.is_none() && duration_ms.is_none() && to.is_none() {
            return Err(LedgerError::NoModifications);
        }
        let rev = match resolve_order(order_number, last) {
            Ok(Some(rev)) => rev,
            Ok(Option::None) => {
                return Ok(Outcome::NeedsPicker);
            },
            Err(e) => {
                return Err(e);
            },
        };
        match Self::exec_edit_chosen(category, from, duration_ms, to, rev, data) {
            Ok(()) => Ok(Outcome::Done),
            Err(e) => Err(e),
        }
    }

    /// The delete decision: rejects an empty ledger, asks for the picker
    /// when no order number was given, and otherwise asks the caller to
    /// confirm deleting the addressed block.
    pub fn exec_del(order_number: &Option<u32>, last: bool, data: &Data) -> (r: Result<
        Outcome,
        LedgerError,
    >)
        ensures
            del_outcome_spec(data.blocks@, *order_number, last, r),
    {
        if data.len() == 0 {
            return Err(LedgerError::EmptyLedger);
        }
        let rev = match resolve_order(order_number, last) {
            Ok(Some(rev)) => rev,
            Ok(Option::None) => {
                return Ok(Outcome::NeedsPicker);
            },
            Err(e) => {
                return Err(e);
            },
        };
        match index_from_reversed(rev, data.len()) {
            Ok(idx) => Ok(Outcome::ConfirmDelete(idx)),
            Err(e) => Err(e),
        }
    }

    /// Resumes after the picker chose reversed position `rev`.
    pub fn apply_choice(&self, rev: u32, data: &mut Data) -> (r: Result<Outcome, LedgerError>)
        ensures
            (match *self {
                PlanCommands::Edit { ref category, from, duration_ms, to, .. } => (match index_from_reversed_spec(
                    rev,
                    old(data).blocks@.len() as usize,
                ) {
                    Err(e) => r == Err::<Outcome, LedgerError>(e) && final(data).blocks@ == old(data).blocks@,
                    Ok(idx) => (r is Ok ==> r->Ok_0 == Outcome::Done) && edit_transition(
                        old(data).blocks@,
                        final(data).blocks@,
                        *category,
                        from,
                        duration_ms,
                        to,
                        idx as int,
                        strip_outcome(r),
                    ),
                }),
                PlanCommands::Del { .. } => final(data).blocks@ == old(data).blocks@ && (match index_from_reversed_spec(
                    rev,
                    old(data).blocks@.len() as usize,
                ) {
                    Err(e) => r == Err::<Outcome, LedgerError>(e),
                    Ok(idx) => r == Ok::<Outcome, LedgerError>(Outcome::ConfirmDelete(idx)),
                }),
                PlanCommands::Add { .. } => r == Ok::<Outcome, LedgerError>(Outcome::Done)
                    && final(data).blocks@ == old(data).blocks@,
            }),
            final(data).cats() == old(data).cats(),
    {
        match self {
            PlanCommands::Edit { category, from, duration_ms, to, .. } => {
                match Self::exec_edit_chosen(category, *from, *duration_ms, *to, rev, data) {
                    Ok(()) => Ok(Outcome::Done),
                    Err(e) => Err(e),
                }
            },
            PlanCommands::Del { .. } => {
                match index_from_reversed(rev, data.len()) {
                    Ok(idx) => Ok(Outcome::ConfirmDelete(idx)),
                    Err(e) => Err(e),
                }
            },
            PlanCommands::Add { .. } => Ok(Outcome::Done),
        }
    }

    /// Finishes a confirmed (or declined) deletion: the addressed block
    /// is removed exactly when the user confirmed.
    pub fn finish_del(index: usize, confirmed: bool, data: &mut Data) -> (removed: bool)
        requires
            index < old(data).blocks@.len(),
        ensures
            confirmed ==> removed && final(data).blocks@ == old(data).blocks@.remove(index as int),
            !confirmed ==> !removed && final(data).blocks@ == old(data).blocks@,
            final(data).cats() == old(data).cats(),
    {
        if confirmed {
            let _removed_block = data.remove(index);
            true
        } else {
            false
        }
    }
}

impl Executable for PlanCommands {
    fn execute(&self, data: &mut Data) -> (r: Result<Outcome, LedgerError>)
        ensures
            (*self matches PlanCommands::Add { category, from, duration_ms, to } ==> {
                &&& add_block_transition(
                    old(data).blocks@,
                    final(data).blocks@,
                    category@,
                    from,
                    duration_ms,
                    to,
                    strip_outcome(r),
                )
                &&& (r is Ok ==> r->Ok_0 == Outcome::Done)
            }),
            (*self matches PlanCommands::Edit {
                category,
                from,
                duration_ms,
                to,
                order_number,
                last,
            } ==> edit_outcome_spec(
                old(data).blocks@,
                final(data).blocks@,
                category,
                from,
                duration_ms,
                to,
                order_number,
                last,
                r,
            )),
            (*self matches PlanCommands::Del { order_number, last } ==> final(data).blocks@ == old(
                data,
            ).blocks@ && del_outcome_spec(old(data).blocks@, order_number, last, r)),
    {
        match self {
            PlanCommands::Add { category, from, duration_ms, to } => {
                match Self::exec_add(category.as_str(), *from, *duration_ms, *to, data) {
                    Ok(()) => {
                        proof {
                            assert(strip_outcome(Ok::<Outcome, LedgerError>(Outcome::Done))
                                == Ok::<(), LedgerError>(()));
                        }
                        Ok(Outcome::Done)
                    },
                    Err(e) => {
                        proof {
                            assert(strip_outcome(Err::<Outcome, LedgerError>(e)) == Err::<
                                (),
                                LedgerError,
                            >(e));
                        }
                        Err(e)
                    },
                }
            },
            PlanCommands::Edit { category, from, duration_ms, to, order_number, last } => {
                Self::exec_edit(category, *from, *duration_ms, *to, order_number, *last, data)
            },
            PlanCommands::Del { order_number, last } => {
                Self::exec_del(order_number, *last, data)
            },
        }
    }
}

/// Finishes a confirmed (or declined) reset: every category and block is
/// dropped exactly when the user confirmed.
pub fn finish_clear(confirmed: bool, data: &mut Data) -> (cleared: bool)
    ensures
        confirmed ==> cleared && final(data).blocks@.len() == 0 && final(data).cats().len() == 0,
        !confirmed ==> !cleared && *final(data) == *old(data),
{
    if confirmed {
        *data = Data::empty();
        true
    } else {
        false
    }
}

} // verus!
