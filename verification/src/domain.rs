//! The block/timer data model: a time block is a span of work with a
//! category and an optional end (open = still running); the ledger is an
//! insertion-ordered sequence of blocks plus the category list; a timer is
//! an ephemeral projection of the open block.

use vstd::prelude::*;
use crate::clock::{since_unix, split_hms, trunc_secs};
use crate::text::{dec_str_pad2, u64_to_string_pad2};

verus! {

/// `a + b`, stuck at the largest 64-bit value.
pub open spec fn sat_add(a: u64, b: u64) -> u64 {
    if a + b > u64::MAX {
        u64::MAX
    } else {
        (a + b) as u64
    }
}

/// `a - b`, stuck at zero.
pub open spec fn sat_sub(a: u64, b: u64) -> u64 {
    if a >= b {
        (a - b) as u64
    } else {
        0
    }
}

/// Computes [`sat_add`].
pub fn sat_add_u64(a: u64, b: u64) -> (r: u64)
    ensures
        r == sat_add(a, b),
{
    match a.checked_add(b) {
        Some(r) => r,
        Option::None => u64::MAX,
    }
}

/// The larger distance: `|a - b|`.
pub open spec fn abs_diff(a: u64, b: u64) -> u64 {
    if a >= b {
        (a - b) as u64
    } else {
        (b - a) as u64
    }
}

/// A recorded span of activity. `end_unix == None` means the block is
/// still open (a running timer). Timestamps are milliseconds since the
/// Unix epoch. Blocks carry no identifier: identity is positional.
#[derive(Debug, Clone)]
pub struct TimeBlock {
    /// When the span began.
    pub start_unix: u64,
    /// When it ended, or `None` while it is open.
    pub end_unix: Option<u64>,
    /// What the time was spent on.
    pub category: String,
}

/// An ephemeral view of the open (or not-yet-elapsed) block: mutating it
/// writes nothing back; the caller pops the old block and pushes the one
/// rebuilt by [`Timer::to_block`].
#[derive(Debug, Clone, Copy, PartialEq, Eq)]
pub struct Timer {
    /// When the timer started.
    pub start_unix: u64,
    /// The preset end for a countdown timer, or `None` while uncapped.
    pub end_unix: Option<u64>,
}

/// The hours, minutes and seconds a timer shows at instant `now`: the
/// distance to the end time if one is set (time remaining, or overrun
/// magnitude), else the distance from the start (time elapsed), at
/// whole-second precision truncated to 32 bits.
pub open spec fn timer_hms(t: Timer, now: u64) -> (u32, u32, u32) {
    match t.end_unix {
        Some(e) => split_hms(trunc_secs(abs_diff(now, e))),
        None => split_hms(trunc_secs(abs_diff(now, t.start_unix))),
    }
}

/// The `HH:MM:SS` rendering of an hours/minutes/seconds triple, each part
/// zero-padded to at least two digits.
pub open spec fn hms_text(hms: (u32, u32, u32)) -> Seq<char> {
    dec_str_pad2(hms.0 as nat) + seq![':'] + dec_str_pad2(hms.1 as nat) + seq![':'] + dec_str_pad2(
        hms.2 as nat,
    )
}

impl Timer {
    /// An open timer starting at the clock's current instant.
    pub fn new() -> (t: Timer)
        ensures
            t.end_unix is None,
    {
        Timer { start_unix: since_unix(), end_unix: None }
    }

    /// A countdown timer: it starts at the clock's current instant and is
    /// preset to end `duration_ms` milliseconds later (stuck at the
    /// largest representable timestamp).
    pub fn with_duration(duration_ms: u64) -> (t: Timer)
        ensures
            t.end_unix == Some(sat_add(t.start_unix, duration_ms)),
    {
        let now = since_unix();
        let end = match now.checked_add(duration_ms) {
            Some(e) => e,
            None => u64::MAX,
        };
        Timer { start_unix: now, end_unix: Some(end) }
    }

    /// An open timer with a chosen start.
    pub fn with_initial_time(start_unix: u64) -> (t: Timer)
        ensures
            t.start_unix == start_unix,
            t.end_unix is None,
    {
        Timer { start_unix, end_unix: None }
    }

    /// Delays the preset end by `duration_ms`.
    pub fn add(&mut self, duration_ms: u64)
        requires
            old(self).end_unix is Some,
            old(self).end_unix->0 + duration_ms <= u64::MAX,
        ensures
            final(self).start_unix == old(self).start_unix,
            final(self).end_unix == Some((old(self).end_unix->0 + duration_ms) as u64),
    {
        let e = match self.end_unix {
            Some(e) => e,
            None => 0,
        };
        self.end_unix = Some(e + duration_ms);
    }

    /// Moves the preset end earlier by `duration_ms`: it may move before
    /// the start or into the past; that is accepted.
    pub fn sub(&mut self, duration_ms: u64)
        requires
            old(self).end_unix is Some,
            duration_ms <= old(self).end_unix->0,
        ensures
            final(self).start_unix == old(self).start_unix,
            final(self).end_unix == Some((old(self).end_unix->0 - duration_ms) as u64),
    {
        let e = match self.end_unix {
            Some(e) => e,
            None => 0,
        };
        self.end_unix = Some(e - duration_ms);
    }

    /// Closes the timer at the clock's current instant.
    pub fn end(&mut self)
        ensures
            final(self).start_unix == old(self).start_unix,
            final(self).end_unix is Some,
    {
        self.end_unix = Some(since_unix());
    }

    /// The hours/minutes/seconds display of this timer at instant `now`.
    pub fn hms_at(&self, now: u64) -> (r: (u32, u32, u32))
        ensures
            r == timer_hms(*self, now),
    {
        let target = match self.end_unix {
            Some(e) => e,
            None => self.start_unix,
        };
        let diff = if now >= target {
            now - target
        } else {
            target - now
        };
        let total: u32 = ((diff / 1000) % 0x1_0000_0000) as u32;
        let hours: u32 = total / 3600;
        let minutes: u32 = (total - hours * 3600) / 60;
        (hours, minutes, total % 60)
    }

    /// The display at the clock's current instant. Whatever instant the
    /// clock reads, minutes and seconds are below sixty.
    pub fn get_hours_minutes_seconds(&self) -> (r: (u32, u32, u32))
        ensures
            exists|now: u64| r == timer_hms(*self, now),
            r.1 < 60,
            r.2 < 60,
    {
        let now = since_unix();
        let r = self.hms_at(now);
        proof {
            assert(r == timer_hms(*self, now));
        }
        r
    }

    /// The `HH:MM:SS` text of the display at the clock's current instant.
    pub fn clock_text(&self) -> (r: String)
        ensures
            exists|now: u64| r@ == hms_text(timer_hms(*self, now)),
    {
        let now = since_unix();
        let hms = self.hms_at(now);
        let mut r = u64_to_string_pad2(hms.0 as u64);
        r.append(":");
        r.append(u64_to_string_pad2(hms.1 as u64).as_str());
        r.append(":");
        r.append(u64_to_string_pad2(hms.2 as u64).as_str());
        proof {
            reveal_strlit(":");
            assert(r@ =~= hms_text(timer_hms(*self, now)));
        }
        r
    }

    /// A block snapshot of this timer, for storage under `category`.
    pub fn to_block(&self, category: &str) -> (b: TimeBlock)
        ensures
            b.start_unix == self.start_unix,
            b.end_unix == self.end_unix,
            b.category@ == category@,
    {
        TimeBlock {
            start_unix: self.start_unix,
            end_unix: self.end_unix,
            category: category.to_owned(),
        }
    }
}

/// Snapshotting a timer to a block and rebuilding a timer from that
/// block's start and end yields the same display at every instant.
pub proof fn law_block_round_trip(t: Timer, b: TimeBlock, now: u64)
    requires
        b.start_unix == t.start_unix,
        b.end_unix == t.end_unix,
    ensures
        timer_hms(Timer { start_unix: b.start_unix, end_unix: b.end_unix }, now) == timer_hms(
            t,
            now,
        ),
{
}

/// Whether both of a block's timestamps lie inside the civil-time range,
/// so that its local calendar reading and rendering are available.
pub open spec fn in_civil_range(b: TimeBlock) -> bool {
    b.start_unix <= crate::clock::MAX_CIVIL_MILLIS && (b.end_unix is Some ==> b.end_unix->0
        <= crate::clock::MAX_CIVIL_MILLIS)
}

/// Whether `b` counts as "the running timer" at instant `now`: it is open,
/// or its preset end has not elapsed yet.
pub open spec fn is_running_block(b: TimeBlock, now: u64) -> bool {
    match b.end_unix {
        Some(e) => e > now,
        None => true,
    }
}

/// The timer projected from the first running block, front to back.
pub open spec fn running_timer_spec(blocks: Seq<TimeBlock>, now: u64) -> Option<Timer>
    decreases blocks.len(),
{
    if blocks.len() == 0 {
        None
    } else if is_running_block(blocks[0], now) {
        Some(Timer { start_unix: blocks[0].start_unix, end_unix: blocks[0].end_unix })
    } else {
        running_timer_spec(blocks.skip(1), now)
    }
}

/// A running block somewhere in the sequence means the query finds one.
pub proof fn lemma_running_block_found(blocks: Seq<TimeBlock>, now: u64)
    requires
        exists|i: int| 0 <= i < blocks.len() && is_running_block(blocks[i], now),
    ensures
        running_timer_spec(blocks, now) is Some,
    decreases blocks.len(),
{
    if blocks.len() > 0 && !is_running_block(blocks[0], now) {
        let i = choose|i: int| 0 <= i < blocks.len() && is_running_block(blocks[i], now);
        assert(blocks.skip(1)[i - 1] == blocks[i]);
        lemma_running_block_found(blocks.skip(1), now);
    }
}

/// The ledger: the ordered category list and the insertion-ordered block
/// sequence. Editing a block never reorders the sequence; order-number
/// addressing is by insertion position, not by start time.
#[derive(Debug, Clone)]
pub struct Data {
    /// The category names, in insertion order.
    pub categories: Vec<String>,
    /// The stored blocks, oldest first.
    pub blocks: Vec<TimeBlock>,
}

impl Data {
    /// The stored category names.
    pub open spec fn cats(&self) -> Seq<String> {
        self.categories@
    }

    /// A ledger with no categories and no blocks.
    pub fn empty() -> (d: Data)
        ensures
            d.cats().len() == 0,
            d.blocks@.len() == 0,
    {
        Data { categories: Vec::new(), blocks: Vec::new() }
    }

    /// A fresh ledger: no blocks, and the one built-in category `break`.
    pub fn new() -> (d: Data)
        ensures
            d.cats().len() == 1,
            d.cats()[0]@ == "break"@,
            d.blocks@.len() == 0,
    {
        let mut categories: Vec<String> = Vec::new();
        categories.push("break".to_owned());
        Data { categories, blocks: Vec::new() }
    }

    /// A ledger rebuilt from plain parts (the persistence boundary hands
    /// these in after loading).
    pub fn from_parts(categories: Vec<String>, blocks: Vec<TimeBlock>) -> (d: Data)
        ensures
            d.cats() == categories@,
            d.blocks@ == blocks@,
    {
        Data { categories, blocks }
    }

    /// The category names, for the persistence boundary to serialize.
    pub fn categories(&self) -> (r: &Vec<String>)
        ensures
            r@ == self.cats(),
    {
        &self.categories
    }

    /// The timer projected from the first block that is still running at
    /// instant `now`, or `None` when every block has elapsed.
    pub fn get_running_timer_at(&self, now: u64) -> (r: Option<Timer>)
        ensures
            r == running_timer_spec(self.blocks@, now),
    {
        let len = self.blocks.len();
        let mut i: usize = 0;
        proof {
            assert(self.blocks@.skip(0) =~= self.blocks@);
        }
        loop
            invariant
                i <= len,
                len == self.blocks@.len(),
                running_timer_spec(self.blocks@, now) == running_timer_spec(
                    self.blocks@.skip(i as int),
                    now,
                ),
            decreases len - i,
        {
            if i == len {
                return None;
            }
            let b = &self.blocks[i];
            proof {
                assert(self.blocks@.skip(i as int)[0] == self.blocks@[i as int]);
                assert(self.blocks@.skip(i as int).skip(1) =~= self.blocks@.skip(i + 1));
            }
            let running = match b.end_unix {
                Some(e) => e > now,
                None => true,
            };
            if running {
                return Some(Timer { start_unix: b.start_unix, end_unix: b.end_unix });
            }
            i = i + 1;
        }
    }

    /// The running timer at the clock's current instant. Whatever instant
    /// the clock reads, an open block is found, and `None` means every
    /// block is closed with its end elapsed.
    pub fn get_running_timer(&self) -> (r: Option<Timer>)
        ensures
            exists|now: u64| r == running_timer_spec(self.blocks@, now),
    {
        let now = since_unix();
        let r = self.get_running_timer_at(now);
        proof {
            assert(r == running_timer_spec(self.blocks@, now));
        }
        r
    }

    /// Appends a block at the back.
    pub fn push(&mut self, b: TimeBlock)
        ensures
            final(self).blocks@ == old(self).blocks@.push(b),
            final(self).cats() == old(self).cats(),
    {
        self.blocks.push(b);
    }

    /// Removes and returns the most recently inserted block.
    pub fn pop_last(&mut self) -> (r: Option<TimeBlock>)
        ensures
            old(self).blocks@.len() == 0 ==> r is None && final(self).blocks@ == old(self).blocks@,
            old(self).blocks@.len() > 0 ==> r == Some(old(self).blocks@.last()) && final(self).blocks@
                == old(self).blocks@.drop_last(),
            final(self).cats() == old(self).cats(),
    {
        self.blocks.pop()
    }

    /// Removes the block at `index`, shifting the later ones forward.
    pub fn remove(&mut self, index: usize) -> (r: TimeBlock)
        requires
            index < old(self).blocks@.len(),
        ensures
            r == old(self).blocks@[index as int],
            final(self).blocks@ == old(self).blocks@.remove(index as int),
            final(self).cats() == old(self).cats(),
    {
        self.blocks.remove(index)
    }

    /// The block at `index`.
    pub fn get(&self, index: usize) -> (r: &TimeBlock)
        requires
            index < self.blocks@.len(),
        ensures
            *r == self.blocks@[index as int],
    {
        &self.blocks[index]
    }

    /// Replaces the block at `index`.
    pub fn set_block(&mut self, index: usize, b: TimeBlock)
        requires
            index < old(self).blocks@.len(),
        ensures
            final(self).blocks@ == old(self).blocks@.update(index as int, b),
            final(self).cats() == old(self).cats(),
    {
        self.blocks.set(index, b);
    }

    /// How many blocks are stored.
    pub fn len(&self) -> (r: usize)
        ensures
            r == self.blocks@.len(),
    {
        self.blocks.len()
    }
}

} // verus!
