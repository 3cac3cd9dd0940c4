//! The paginated block picker: a keyboard-driven chooser over the block
//! list shown most recent first. The state machine, the row and footer
//! texts, and the choice arithmetic are verified; the caller owns the
//! terminal, feeds keys in, and prints the texts where the actions say.
//!
//! A full reload redraws every row of the page; an in-page move repaints
//! only the row that lost the highlight and the row that gained it.

use vstd::prelude::*;
use crate::clock::{to_rfc2822, MAX_CIVIL_MILLIS};
use crate::domain::{in_civil_range, sat_add, Data, TimeBlock};
use crate::errors::LedgerError;
use crate::text::{dec_str, u64_to_string};

verus! {

/// How many rows each picker page shows.
pub const PAGE_SIZE: u64 = 10;

/// How long one poll for user input waits, in milliseconds.
pub const FRAME_DURATION_MS: u64 = 16;

/// How many pages a list of `len` lines fills.
pub open spec fn pages_for(len: usize) -> int {
    len / 10 + if len % 10 != 0 {
        1int
    } else {
        0int
    }
}

/// How many rows page `page` of a list of `len` lines shows.
pub open spec fn page_rows(len: usize, page: int) -> int {
    if len - page * 10 < 10 {
        len - page * 10
    } else {
        10int
    }
}

/// The picker's cursor state: the current page, the highlighted row on
/// it, the row count of the page, and the page count.
#[derive(Debug, Clone, Copy, PartialEq, Eq, Structural)]
pub struct PickerState {
    /// How many lines there are to choose from.
    pub len: usize,
    /// The current page, counted from zero.
    pub page: usize,
    /// The highlighted row within the page, counted from zero.
    pub pos: usize,
    /// How many rows the current page shows (exclusive bound on `pos`).
    pub max_pos: usize,
    /// How many pages there are.
    pub total_pages: usize,
}

/// A key the picker reacts to.
#[derive(Debug, Clone, Copy, PartialEq, Eq, Structural)]
pub enum PickerKey {
    /// Arrow up or `k`.
    Up,
    /// Arrow down or `j`.
    Down,
    /// Arrow left or `h`.
    Left,
    /// Arrow right or `l`.
    Right,
    /// Confirm the highlighted row.
    Enter,
    /// Abort the selection.
    CtrlC,
    /// Anything else.
    Other,
}

/// What the caller must do after a step.
#[derive(Debug, Clone, Copy, PartialEq, Eq, Structural)]
pub enum PickerAction {
    /// Nothing changed.
    Stay,
    /// The highlight moved within the page: repaint the two rows.
    Moved { old_pos: usize, new_pos: usize },
    /// The page changed: redraw it in full.
    PageChanged,
    /// The user confirmed the line at this reversed position.
    Chosen { rev: usize },
    /// The user aborted the selection.
    Cancelled,
}

impl PickerState {
    /// The shape every reachable state has.
    pub open spec fn wf(&self) -> bool {
        &&& self.len > 0
        &&& self.total_pages == pages_for(self.len)
        &&& self.page < self.total_pages
        &&& self.max_pos == page_rows(self.len, self.page as int)
        &&& self.pos < self.max_pos
    }

    /// The first state: page zero, top row highlighted.
    pub fn init(len: usize) -> (s: PickerState)
        requires
            len > 0,
        ensures
            s.wf(),
            s.len == len,
            s.page == 0,
            s.pos == 0,
    {
        let total_pages: usize = len / 10 + if len % 10 != 0 {
            1
        } else {
            0
        };
        let max_pos: usize = if len < 10 {
            len
        } else {
            10
        };
        PickerState { len, page: 0, pos: 0, max_pos, total_pages }
    }

    /// Steps the state by one key, handing back what to repaint.
    pub fn step(&mut self, key: PickerKey) -> (a: PickerAction)
        requires
            old(self).wf(),
        ensures
            (*final(self), a) == step_spec(*old(self), key),
            final(self).wf(),
            final(self).len == old(self).len,
            (a matches PickerAction::Chosen { rev } ==> rev < old(self).len),
    {
        let ghost pre = *self;
        let a = match key {
            PickerKey::Up => {
                if self.pos > 0 {
                    let from = self.pos;
                    self.pos = self.pos - 1;
                    PickerAction::Moved { old_pos: from, new_pos: from - 1 }
                } else {
                    PickerAction::Stay
                }
            },
            PickerKey::Down => {
                if self.pos + 1 < self.max_pos {
                    let from = self.pos;
                    self.pos = self.pos + 1;
                    PickerAction::Moved { old_pos: from, new_pos: from + 1 }
                } else {
                    PickerAction::Stay
                }
            },
            PickerKey::Left => {
                if self.page > 0 {
                    self.load_page(self.page - 1);
                    PickerAction::PageChanged
                } else {
                    PickerAction::Stay
                }
            },
            PickerKey::Right => {
                if self.page + 1 < self.total_pages {
                    self.load_page(self.page + 1);
                    PickerAction::PageChanged
                } else {
                    PickerAction::Stay
                }
            },
            PickerKey::Enter => PickerAction::Chosen { rev: self.pos + self.page * 10 },
            PickerKey::CtrlC => PickerAction::Cancelled,
            PickerKey::Other => PickerAction::Stay,
        };
        proof {
            assert((*self, a) == step_spec(pre, key));
        }
        a
    }

    /// Moves to `new_page`: recomputes the page's row count and clamps
    /// the highlight into range.
    fn load_page(&mut self, new_page: usize)
        requires
            old(self).wf(),
            new_page < old(self).total_pages,
        ensures
            *final(self) == page_load(*old(self), new_page as int),
            final(self).wf(),
    {
        proof {
            pages_cover(self.len, new_page as int);
        }
        let rows: usize = if self.len - new_page * 10 < 10 {
            self.len - new_page * 10
        } else {
            10
        };
        self.page = new_page;
        self.max_pos = rows;
        if self.pos >= rows {
            self.pos = rows - 1;
        }
    }
}

/// The state after moving to `new_page`: the row count is recomputed and
/// the highlight clamped into range.
pub open spec fn page_load(s: PickerState, new_page: int) -> PickerState {
    let rows = page_rows(s.len, new_page);
    PickerState {
        page: new_page as usize,
        max_pos: rows as usize,
        pos: if s.pos >= rows {
            (rows - 1) as usize
        } else {
            s.pos
        },
        ..s
    }
}

/// One step of the picker: up and down move the highlight within the
/// page, clamped at its edges; left and right change page, a no-op at the
/// first and last page; Enter confirms the highlighted line's reversed
/// position `pos + page * 10`; Ctrl-C aborts; any other key is ignored.
pub open spec fn step_spec(s: PickerState, key: PickerKey) -> (PickerState, PickerAction) {
    match key {
        PickerKey::Up => if s.pos > 0 {
            (
                PickerState { pos: (s.pos - 1) as usize, ..s },
                PickerAction::Moved { old_pos: s.pos, new_pos: (s.pos - 1) as usize },
            )
        } else {
            (s, PickerAction::Stay)
        },
        PickerKey::Down => if s.pos + 1 < s.max_pos {
            (
                PickerState { pos: (s.pos + 1) as usize, ..s },
                PickerAction::Moved { old_pos: s.pos, new_pos: (s.pos + 1) as usize },
            )
        } else {
            (s, PickerAction::Stay)
        },
        PickerKey::Left => if s.page > 0 {
            (page_load(s, s.page - 1), PickerAction::PageChanged)
        } else {
            (s, PickerAction::Stay)
        },
        PickerKey::Right => if s.page + 1 < s.total_pages {
            (page_load(s, s.page + 1), PickerAction::PageChanged)
        } else {
            (s, PickerAction::Stay)
        },
        PickerKey::Enter => (s, PickerAction::Chosen { rev: (s.pos + s.page * 10) as usize }),
        PickerKey::CtrlC => (s, PickerAction::Cancelled),
        PickerKey::Other => (s, PickerAction::Stay),
    }
}

/// Every page below the page count has between one and ten rows.
pub proof fn pages_cover(len: usize, page: int)
    requires
        page >= 0,
        page < pages_for(len),
    ensures
        1 <= page_rows(len, page) <= 10,
{
}

/// `n` spaces.
pub open spec fn spaces(n: nat) -> Seq<char>
    decreases n,
{
    if n == 0 {
        Seq::<char>::empty()
    } else {
        spaces((n - 1) as nat).push(' ')
    }
}

/// A plain row: two leading spaces, then the line padded with spaces to
/// at least eighty characters.
pub open spec fn padded_row(line: Seq<char>) -> Seq<char> {
    "  "@ + line + (if line.len() < 80 {
        spaces((80 - line.len()) as nat)
    } else {
        Seq::<char>::empty()
    })
}

/// Renders [`padded_row`].
pub fn pad_row(line: &str) -> (r: String)
    ensures
        r@ == padded_row(line@),
{
    let mut r = String::new();
    r.append("  ");
    r.append(line);
    let len = line.unicode_len();
    if len < 80 {
        let mut added: usize = 0;
        while added < 80 - len
            invariant
                len == line@.len(),
                len < 80,
                added <= 80 - len,
                r@ == "  "@ + line@ + spaces(added as nat),
            decreases 80 - len - added,
        {
            r.append(" ");
            proof {
                reveal_strlit(" ");
                assert(r@ =~= "  "@ + line@ + spaces((added + 1) as nat));
            }
            added = added + 1;
        }
    }
    proof {
        assert(r@ =~= padded_row(line@));
    }
    r
}

/// The highlighted form of a line: `"> "` before it.
pub open spec fn selected_row(line: Seq<char>) -> Seq<char> {
    "> "@ + line
}

/// The plain form of a line: `"  "` before it.
pub open spec fn unselected_row(line: Seq<char>) -> Seq<char> {
    "  "@ + line
}

/// Renders [`selected_row`] or [`unselected_row`].
pub fn mark_row(line: &str, selected: bool) -> (r: String)
    ensures
        selected ==> r@ == selected_row(line@),
        !selected ==> r@ == unselected_row(line@),
{
    let mut r = String::new();
    if selected {
        r.append("> ");
    } else {
        r.append("  ");
    }
    r.append(line);
    r
}

/// The footer under a page: the one-based page number, the page count,
/// and the key hints.
pub open spec fn footer_text(page: usize, total_pages: usize) -> Seq<char> {
    "Page "@ + dec_str((page + 1) as nat) + " of "@ + dec_str(total_pages as nat)
        + ". Navigate with arrows or Vim motions. Enter to submit."@
}

/// Renders [`footer_text`].
pub fn footer(page: usize, total_pages: usize) -> (r: String)
    requires
        page < total_pages,
    ensures
        r@ == footer_text(page, total_pages),
{
    let mut r = String::new();
    r.append("Page ");
    r.append(u64_to_string(page as u64 + 1).as_str());
    r.append(" of ");
    r.append(u64_to_string(total_pages as u64).as_str());
    r.append(". Navigate with arrows or Vim motions. Enter to submit.");
    r
}

/// One line of the picker list: the reversed position, the category, the
/// start text, and the end text, in the shape
/// `"{rev}: {category}: {start}, {end}"`.
pub open spec fn label_text(
    rev: nat,
    category: Seq<char>,
    start_text: Seq<char>,
    end_text: Seq<char>,
) -> Seq<char> {
    dec_str(rev) + ": "@ + category + ": "@ + start_text + ", "@ + end_text
}

/// Renders [`label_text`].
pub fn format_block_label(
    rev: u64,
    category: &str,
    start_text: &str,
    end_text: &str,
) -> (r: String)
    ensures
        r@ == label_text(rev as nat, category@, start_text@, end_text@),
{
    let mut r = u64_to_string(rev);
    r.append(": ");
    r.append(category);
    r.append(": ");
    r.append(start_text);
    r.append(", ");
    r.append(end_text);
    r
}

/// Whether `s` is a label for reversed position `rev` and block `b`: the
/// start renders as some calendar text, and the end as some calendar text
/// or the word `Ongoing` while the block is open.
pub open spec fn is_label_for(s: Seq<char>, rev: nat, b: TimeBlock) -> bool {
    exists|st: Seq<char>, et: Seq<char>|
        s == label_text(rev, b.category@, st, et) && (b.end_unix is None ==> et == "Ongoing"@)
}

/// The label of block `b` at reversed position `rev`, or the range error
/// exactly when a timestamp lies beyond the civil-time range.
pub fn block_label(b: &TimeBlock, rev: u64) -> (r: Result<String, LedgerError>)
    ensures
        match r {
            Ok(s) => is_label_for(s@, rev as nat, *b) && in_civil_range(*b),
            Err(e) => e == LedgerError::TimestampOutOfRange && !in_civil_range(*b),
        },
        in_civil_range(*b) ==> r is Ok,
{
    if b.start_unix > MAX_CIVIL_MILLIS {
        return Err(LedgerError::TimestampOutOfRange);
    }
    let start_text = to_rfc2822(b.start_unix);
    let end_text: String = match b.end_unix {
        Some(e) => {
            if e > MAX_CIVIL_MILLIS {
                return Err(LedgerError::TimestampOutOfRange);
            }
            to_rfc2822(e)
        },
        Option::None => "Ongoing".to_owned(),
    };
    Ok(format_block_label(rev, b.category.as_str(), start_text.as_str(), end_text.as_str()))
}

/// The picker's line list: the blocks most recent first, each labelled
/// with its reversed position, or the range error exactly when some
/// timestamp lies beyond the civil-time range.
pub fn picker_lines(data: &Data) -> (r: Result<Vec<String>, LedgerError>)
    ensures
        match r {
            Ok(lines) => {
                &&& lines@.len() == data.blocks@.len()
                &&& forall|i: int|
                    0 <= i < lines@.len() ==> is_label_for(
                        #[trigger] lines@[i]@,
                        i as nat,
                        data.blocks@[data.blocks@.len() - 1 - i],
                    )
                &&& forall|i: int|
                    0 <= i < data.blocks@.len() ==> in_civil_range(#[trigger] data.blocks@[i])
            },
            Err(e) => e == LedgerError::TimestampOutOfRange && exists|i: int|
                0 <= i < data.blocks@.len() && !in_civil_range(#[trigger] data.blocks@[i]),
        },
        (forall|i: int| 0 <= i < data.blocks@.len() ==> in_civil_range(#[trigger] data.blocks@[i]))
            ==> r is Ok,
{
    let len = data.len();
    let mut lines: Vec<String> = Vec::new();
    let mut i: usize = 0;
    while i < len
        invariant
            i <= len,
            len == data.blocks@.len(),
            lines@.len() == i,
            forall|j: int|
                0 <= j < i ==> is_label_for(
                    #[trigger] lines@[j]@,
                    j as nat,
                    data.blocks@[data.blocks@.len() - 1 - j],
                ),
            forall|j: int|
                0 <= j < i ==> in_civil_range(#[trigger] data.blocks@[data.blocks@.len() - 1 - j]),
        decreases len - i,
    {
        let b = data.get(len - 1 - i);
        match block_label(b, i as u64) {
            Ok(s) => {
                lines.push(s);
            },
            Err(e) => {
                return Err(e);
            },
        }
        i = i + 1;
    }
    proof {
        assert forall|k: int| 0 <= k < data.blocks@.len() implies in_civil_range(
            #[trigger] data.blocks@[k],
        ) by {
            assert(in_civil_range(data.blocks@[data.blocks@.len() - 1 - (len - 1 - k)]));
        }
    }
    Ok(lines)
}

/// Advances the redraw tick by one poll interval: a second full, the
/// display is repainted and the tick restarts.
pub open spec fn tick_spec(acc_ms: u64, frame_ms: u64) -> (u64, bool) {
    if sat_add(acc_ms, frame_ms) >= 1000 {
        (0u64, true)
    } else {
        (sat_add(acc_ms, frame_ms), false)
    }
}

/// Decides [`tick_spec`]: the accumulated wait and whether to repaint.
pub fn tick_advance(acc_ms: u64, frame_ms: u64) -> (r: (u64, bool))
    ensures
        r == tick_spec(acc_ms, frame_ms),
{
    let total = match acc_ms.checked_add(frame_ms) {
        Some(t) => t,
        Option::None => u64::MAX,
    };
    if total >= 1000 {
        (0, true)
    } else {
        (total, false)
    }
}

} // verus!
