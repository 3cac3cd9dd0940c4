//! The daily aggregator: for a civil reading of "now", every block whose
//! start or end falls on today, or which is still open, contributes a
//! clipped span; spans are summed per category, split into worked and
//! break time, and listed by descending span with ties broken by
//! ascending category name.

use vstd::prelude::*;
use crate::clock::{
    convert, msm, millis_since_midnight, same_civil_day, same_day, since_unix, CivilStamp,
    MAX_CIVIL_MILLIS,
};
use crate::domain::{in_civil_range, sat_add, sat_add_u64, sat_sub, Data, TimeBlock};
use crate::errors::LedgerError;
use crate::text::{lemma_lex_irrefl, lemma_lex_total, lemma_lex_trans, lex_lt, str_eq, str_lex_lt};

verus! {

/// A block with both timestamps read as local civil time, ready for
/// day-boundary arithmetic.
#[derive(Debug, Clone)]
pub struct CivilBlock {
    /// The start, with its local calendar reading.
    pub start: CivilStamp,
    /// The end, with its local calendar reading, or `None` while open.
    pub end: Option<CivilStamp>,
    /// What the time was spent on.
    pub category: String,
}

/// One line of the daily breakdown: a category and its clipped total.
#[derive(Debug, Clone)]
pub struct CategoryTotal {
    /// The category name.
    pub category: String,
    /// Its total clipped span today, in milliseconds.
    pub millis: u64,
}

/// The daily view: worked and break totals and the per-category
/// breakdown, largest span first.
#[derive(Debug, Clone)]
pub struct DaySummary {
    /// The clipped spans of every category but `break`, summed.
    pub worked_millis: u64,
    /// The clipped span of the category `break`.
    pub break_millis: u64,
    /// Per-category totals, by descending span, ties by ascending name.
    pub entries: Vec<CategoryTotal>,
}

/// Whether `b` belongs to the day of `now`: its start falls on that day,
/// or its end does, or it is still open.
pub open spec fn relevant(b: CivilBlock, now: CivilStamp) -> bool {
    ||| same_civil_day(now, b.start)
    ||| (b.end is Some && same_civil_day(now, b.end->0))
    ||| b.end is None
}

/// The instant `b` effectively ends for today's accounting: its end,
/// clipped to `now`; an open block runs to `now`.
pub open spec fn effective_end(b: CivilBlock, now: CivilStamp) -> CivilStamp {
    match b.end {
        Some(e) => if e.millis > now.millis {
            now
        } else {
            e
        },
        Option::None => now,
    }
}

/// The span `b` contributes to the day of `now`: from its start to its
/// effective end when it started today, and from local midnight to the
/// effective end when it started on another day.
pub open spec fn counted_millis(b: CivilBlock, now: CivilStamp) -> u64 {
    if !same_civil_day(now, b.start) {
        msm(effective_end(b, now))
    } else {
        sat_sub(effective_end(b, now).millis, b.start.millis)
    }
}

/// What `b` contributes to category `cat`.
pub open spec fn cat_share(b: CivilBlock, now: CivilStamp, cat: Seq<char>) -> nat {
    if relevant(b, now) && b.category@ == cat {
        counted_millis(b, now) as nat
    } else {
        0
    }
}

/// The total span of category `cat` over `blocks`, unclamped.
pub open spec fn cat_total(blocks: Seq<CivilBlock>, now: CivilStamp, cat: Seq<char>) -> nat
    decreases blocks.len(),
{
    if blocks.len() == 0 {
        0
    } else {
        cat_total(blocks.drop_last(), now, cat) + cat_share(blocks.last(), now, cat)
    }
}

/// What `b` contributes to the worked total: its span, unless it is a
/// break or not today's.
pub open spec fn worked_share(b: CivilBlock, now: CivilStamp) -> nat {
    if relevant(b, now) && b.category@ != "break"@ {
        counted_millis(b, now) as nat
    } else {
        0
    }
}

/// The total worked span over `blocks`, unclamped.
pub open spec fn worked_total(blocks: Seq<CivilBlock>, now: CivilStamp) -> nat
    decreases blocks.len(),
{
    if blocks.len() == 0 {
        0
    } else {
        worked_total(blocks.drop_last(), now) + worked_share(blocks.last(), now)
    }
}

/// The total break span over `blocks`, unclamped.
pub open spec fn break_total(blocks: Seq<CivilBlock>, now: CivilStamp) -> nat {
    cat_total(blocks, now, "break"@)
}

/// Whether some relevant block of `blocks` carries category `cat`.
pub open spec fn present(blocks: Seq<CivilBlock>, now: CivilStamp, cat: Seq<char>) -> bool {
    exists|i: int|
        0 <= i < blocks.len() && #[trigger] relevant(blocks[i], now) && blocks[i].category@ == cat
}

/// `n` clamped into 64 bits.
pub open spec fn clamp64(n: nat) -> u64 {
    if n > u64::MAX {
        u64::MAX
    } else {
        n as u64
    }
}

/// The breakdown order: larger spans first, ties by ascending name.
pub open spec fn entry_precedes(a: CategoryTotal, b: CategoryTotal) -> bool {
    a.millis > b.millis || (a.millis == b.millis && lex_lt(a.category@, b.category@))
}

/// Every breakdown entry is a present category with its clamped total.
pub open spec fn entries_valid(
    entries: Seq<CategoryTotal>,
    blocks: Seq<CivilBlock>,
    now: CivilStamp,
) -> bool {
    &&& forall|k: int|
        0 <= k < entries.len() ==> present(blocks, now, #[trigger] entries[k].category@)
    &&& forall|k: int|
        0 <= k < entries.len() ==> (#[trigger] entries[k]).millis == clamp64(
            cat_total(blocks, now, entries[k].category@),
        )
}

/// Every present category has a breakdown entry.
pub open spec fn entries_cover(
    entries: Seq<CategoryTotal>,
    blocks: Seq<CivilBlock>,
    now: CivilStamp,
) -> bool {
    forall|c: Seq<char>|
        #[trigger] present(blocks, now, c) ==> exists|k: int|
            0 <= k < entries.len() && #[trigger] entries[k].category@ == c
}

/// No category appears twice in the breakdown.
pub open spec fn entries_distinct(entries: Seq<CategoryTotal>) -> bool {
    forall|k1: int, k2: int|
        0 <= k1 < k2 < entries.len() ==> (#[trigger] entries[k1]).category@ != (
        #[trigger] entries[k2]).category@
}

/// The breakdown is strictly ordered by [`entry_precedes`].
pub open spec fn entries_sorted(entries: Seq<CategoryTotal>) -> bool {
    forall|i: int, j: int|
        0 <= i < j < entries.len() ==> entry_precedes(
            #[trigger] entries[i],
            #[trigger] entries[j],
        )
}

/// The whole contract of the daily view against a civil reading.
pub open spec fn summary_correct(s: DaySummary, blocks: Seq<CivilBlock>, now: CivilStamp) -> bool {
    &&& s.worked_millis == clamp64(worked_total(blocks, now))
    &&& s.break_millis == clamp64(break_total(blocks, now))
    &&& entries_valid(s.entries@, blocks, now)
    &&& entries_cover(s.entries@, blocks, now)
    &&& entries_distinct(s.entries@)
    &&& entries_sorted(s.entries@)
}

/// Appending a block adds exactly its contribution to a category total.
proof fn lemma_cat_total_push(s: Seq<CivilBlock>, b: CivilBlock, now: CivilStamp, cat: Seq<char>)
    ensures
        cat_total(s.push(b), now, cat) == cat_total(s, now, cat) + cat_share(b, now, cat),
{
    assert(s.push(b).drop_last() =~= s);
    assert(s.push(b).last() == b);
}

/// Appending a block adds exactly its contribution to the worked total.
proof fn lemma_worked_total_push(s: Seq<CivilBlock>, b: CivilBlock, now: CivilStamp)
    ensures
        worked_total(s.push(b), now) == worked_total(s, now) + worked_share(b, now),
{
    assert(s.push(b).drop_last() =~= s);
    assert(s.push(b).last() == b);
}

/// A category no relevant block carries totals zero.
proof fn lemma_absent_zero(s: Seq<CivilBlock>, now: CivilStamp, cat: Seq<char>)
    requires
        !present(s, now, cat),
    ensures
        cat_total(s, now, cat) == 0,
    decreases s.len(),
{
    if s.len() > 0 {
        assert forall|i: int|
            0 <= i < s.drop_last().len() implies !(#[trigger] relevant(s.drop_last()[i], now)
            && s.drop_last()[i].category@ == cat) by {
            assert(s.drop_last()[i] == s[i]);
        }
        lemma_absent_zero(s.drop_last(), now, cat);
        assert(s.last() == s[s.len() - 1]);
        assert(cat_share(s.last(), now, cat) == 0);
    }
}

/// A category is present after a push exactly when it was present before
/// or the pushed block is relevant and carries it.
proof fn lemma_present_push(s: Seq<CivilBlock>, b: CivilBlock, now: CivilStamp, cat: Seq<char>)
    ensures
        present(s.push(b), now, cat) <==> (present(s, now, cat) || (relevant(b, now) && b.category@
            == cat)),
{
    let sp = s.push(b);
    if present(s, now, cat) {
        let i = choose|i: int|
            0 <= i < s.len() && #[trigger] relevant(s[i], now) && s[i].category@ == cat;
        assert(sp[i] == s[i]);
        assert(relevant(sp[i], now));
    }
    if relevant(b, now) && b.category@ == cat {
        assert(sp[s.len() as int] == b);
        assert(relevant(sp[s.len() as int], now));
    }
    if present(sp, now, cat) {
        let i = choose|i: int|
            0 <= i < sp.len() && #[trigger] relevant(sp[i], now) && sp[i].category@ == cat;
        if i < s.len() {
            assert(s[i] == sp[i]);
            assert(relevant(s[i], now));
        } else {
            assert(sp[i] == b);
        }
    }
}

/// Decides [`relevant`].
fn is_relevant(b: &CivilBlock, now: &CivilStamp) -> (r: bool)
    ensures
        r == relevant(*b, *now),
{
    if same_day(now, &b.start) {
        return true;
    }
    match b.end {
        Some(e) => same_day(now, &e),
        Option::None => true,
    }
}

/// Computes [`counted_millis`].
fn counted(b: &CivilBlock, now: &CivilStamp) -> (r: u64)
    ensures
        r == counted_millis(*b, *now),
{
    let eff: CivilStamp = match b.end {
        Some(e) => if e.millis > now.millis {
            *now
        } else {
            e
        },
        Option::None => *now,
    };
    if !same_day(now, &b.start) {
        millis_since_midnight(&eff)
    } else {
        if eff.millis >= b.start.millis {
            eff.millis - b.start.millis
        } else {
            0
        }
    }
}

/// Decides [`entry_precedes`].
fn precedes(a: &CategoryTotal, b: &CategoryTotal) -> (r: bool)
    ensures
        r == entry_precedes(*a, *b),
{
    if a.millis > b.millis {
        true
    } else if a.millis == b.millis {
        str_lex_lt(a.category.as_str(), b.category.as_str())
    } else {
        false
    }
}

/// The breakdown order is transitive.
proof fn lemma_precedes_trans(a: CategoryTotal, b: CategoryTotal, c: CategoryTotal)
    requires
        entry_precedes(a, b),
        entry_precedes(b, c),
    ensures
        entry_precedes(a, c),
{
    if a.millis == b.millis && b.millis == c.millis {
        lemma_lex_trans(a.category@, b.category@, c.category@);
    }
}

/// Computes the daily view of `blocks` at the civil instant `now`.
pub fn day_view(blocks: &Vec<CivilBlock>, now: &CivilStamp) -> (s: DaySummary)
    ensures
        summary_correct(s, blocks@, *now),
{
    let len = blocks.len();
    let mut worked: u64 = 0;
    let mut brk: u64 = 0;
    let mut entries: Vec<CategoryTotal> = Vec::new();
    let mut i: usize = 0;
    proof {
        assert(blocks@.take(0) =~= Seq::<CivilBlock>::empty());
    }
    while i < len
        invariant
            i <= len,
            len == blocks@.len(),
            worked == clamp64(worked_total(blocks@.take(i as int), *now)),
            brk == clamp64(break_total(blocks@.take(i as int), *now)),
            entries_valid(entries@, blocks@.take(i as int), *now),
            entries_cover(entries@, blocks@.take(i as int), *now),
            entries_distinct(entries@),
        decreases len - i,
    {
        let ghost pre = blocks@.take(i as int);
        let ghost pre_entries = entries@;
        let ghost bb = blocks@[i as int];
        let ghost post = blocks@.take(i + 1);
        let b = &blocks[i];
        proof {
            assert(post =~= pre.push(bb));
            lemma_worked_total_push(pre, bb, *now);
            lemma_cat_total_push(pre, bb, *now, "break"@);
        }
        if is_relevant(b, now) {
            let c = counted(b, now);
            if str_eq(b.category.as_str(), "break") {
                brk = sat_add_u64(brk, c);
            } else {
                worked = sat_add_u64(worked, c);
            }
            let n = entries.len();
            let mut j: usize = 0;
            let mut found = false;
            while j < n && !found
                invariant
                    j <= n,
                    n == entries@.len(),
                    entries@ == pre_entries,
                    bb == blocks@[i as int],
                    b == blocks@[i as int],
                    !found ==> forall|k: int|
                        0 <= k < j ==> (#[trigger] entries@[k]).category@ != bb.category@,
                    found ==> j < n && entries@[j as int].category@ == bb.category@,
                decreases n - j + if found {
                    0int
                } else {
                    1int
                },
            {
                if str_eq(entries[j].category.as_str(), b.category.as_str()) {
                    found = true;
                } else {
                    j = j + 1;
                }
            }
            if found {
                let updated = CategoryTotal {
                    category: entries[j].category.clone(),
                    millis: sat_add_u64(entries[j].millis, c),
                };
                entries.set(j, updated);
                proof {
                    assert forall|k: int| 0 <= k < entries@.len() implies present(
                        post,
                        *now,
                        (#[trigger] entries@[k]).category@,
                    ) && entries@[k].millis == clamp64(
                        cat_total(post, *now, entries@[k].category@),
                    ) by {
                        lemma_present_push(pre, bb, *now, entries@[k].category@);
                        lemma_cat_total_push(pre, bb, *now, entries@[k].category@);
                        if k != j {
                            assert(entries@[k] == pre_entries[k]);
                            assert(entries@[k].category@ != bb.category@);
                        } else {
                            assert(entries@[k].category@ == pre_entries[k].category@);
                            assert(cat_share(bb, *now, entries@[k].category@) == counted_millis(
                                bb,
                                *now,
                            ));
                        }
                    }
                    assert forall|cc: Seq<char>| #[trigger] present(post, *now, cc) implies exists|
                        k: int,
                    | 0 <= k < entries@.len() && #[trigger] entries@[k].category@ == cc by {
                        lemma_present_push(pre, bb, *now, cc);
                        if present(pre, *now, cc) {
                            let k = choose|k: int|
                                0 <= k < pre_entries.len() && #[trigger] pre_entries[k].category@
                                    == cc;
                            assert(entries@[k].category@ == cc);
                        } else {
                            assert(entries@[j as int].category@ == cc);
                        }
                    }
                    assert forall|k1: int, k2: int|
                        0 <= k1 < k2 < entries@.len() implies (#[trigger] entries@[k1]).category@
                        != (#[trigger] entries@[k2]).category@ by {
                        assert(entries@[k1].category@ == pre_entries[k1].category@);
                        assert(entries@[k2].category@ == pre_entries[k2].category@);
                    }
                }
            } else {
                proof {
                    if present(pre, *now, bb.category@) {
                        let k = choose|k: int|
                            0 <= k < pre_entries.len() && #[trigger] pre_entries[k].category@
                                == bb.category@;
                        assert(false);
                    }
                    lemma_absent_zero(pre, *now, bb.category@);
                }
                entries.push(CategoryTotal { category: b.category.clone(), millis: c });
                proof {
                    let last = entries@.len() - 1;
                    assert forall|k: int| 0 <= k < entries@.len() implies present(
                        post,
                        *now,
                        (#[trigger] entries@[k]).category@,
                    ) && entries@[k].millis == clamp64(
                        cat_total(post, *now, entries@[k].category@),
                    ) by {
                        lemma_present_push(pre, bb, *now, entries@[k].category@);
                        lemma_cat_total_push(pre, bb, *now, entries@[k].category@);
                        if k < last {
                            assert(entries@[k] == pre_entries[k]);
                            assert(entries@[k].category@ != bb.category@);
                        } else {
                            assert(entries@[k].category@ == bb.category@);
                            assert(cat_total(pre, *now, bb.category@) == 0);
                        }
                    }
                    assert forall|cc: Seq<char>| #[trigger] present(post, *now, cc) implies exists|
                        k: int,
                    | 0 <= k < entries@.len() && #[trigger] entries@[k].category@ == cc by {
                        lemma_present_push(pre, bb, *now, cc);
                        if present(pre, *now, cc) {
                            let k = choose|k: int|
                                0 <= k < pre_entries.len() && #[trigger] pre_entries[k].category@
                                    == cc;
                            assert(entries@[k].category@ == cc);
                        } else {
                            assert(entries@[last].category@ == cc);
                        }
                    }
                    assert forall|k1: int, k2: int|
                        0 <= k1 < k2 < entries@.len() implies (#[trigger] entries@[k1]).category@
                        != (#[trigger] entries@[k2]).category@ by {
                        if k2 < last {
                            assert(entries@[k1] == pre_entries[k1]);
                            assert(entries@[k2] == pre_entries[k2]);
                        } else {
                            assert(entries@[k1] == pre_entries[k1]);
                            assert(entries@[k2].category@ == bb.category@);
                        }
                    }
                }
            }
        } else {
            proof {
                assert forall|k: int| 0 <= k < entries@.len() implies present(
                    post,
                    *now,
                    (#[trigger] entries@[k]).category@,
                ) && entries@[k].millis == clamp64(
                    cat_total(post, *now, entries@[k].category@),
                ) by {
                    lemma_present_push(pre, bb, *now, entries@[k].category@);
                    lemma_cat_total_push(pre, bb, *now, entries@[k].category@);
                }
                assert forall|cc: Seq<char>| #[trigger] present(post, *now, cc) implies exists|
                    k: int,
                | 0 <= k < entries@.len() && #[trigger] entries@[k].category@ == cc by {
                    lemma_present_push(pre, bb, *now, cc);
                    let k = choose|k: int|
                        0 <= k < pre_entries.len() && #[trigger] pre_entries[k].category@ == cc;
                    assert(entries@[k].category@ == cc);
                }
            }
        }
        i = i + 1;
    }
    proof {
        assert(blocks@.take(len as int) =~= blocks@);
    }
    // Order the breakdown: of the unsorted tail, an entry that precedes
    // all the others is moved to its front.
    let n = entries.len();
    let mut si: usize = 0;
    while si < n
        invariant
            si <= n,
            n == entries@.len(),
            entries_valid(entries@, blocks@, *now),
            entries_cover(entries@, blocks@, *now),
            entries_distinct(entries@),
            forall|a: int, b: int|
                0 <= a < si && a < b < entries@.len() ==> !entry_precedes(
                    #[trigger] entries@[b],
                    #[trigger] entries@[a],
                ),
        decreases n - si,
    {
        let mut m: usize = si;
        let mut k: usize = si + 1;
        proof {
            lemma_lex_irrefl(entries@[si as int].category@);
        }
        while k < n
            invariant
                si <= m < k <= n,
                n == entries@.len(),
                forall|t: int|
                    si <= t < k ==> !entry_precedes(
                        #[trigger] entries@[t],
                        entries@[m as int],
                    ),
            decreases n - k,
        {
            if precedes(&entries[k], &entries[m]) {
                proof {
                    assert forall|t: int| si <= t < k + 1 implies !entry_precedes(
                        #[trigger] entries@[t],
                        entries@[k as int],
                    ) by {
                        lemma_lex_irrefl(entries@[k as int].category@);
                        if t < k && entry_precedes(entries@[t], entries@[k as int]) {
                            lemma_precedes_trans(
                                entries@[t],
                                entries@[k as int],
                                entries@[m as int],
                            );
                        }
                    }
                }
                m = k;
            } else {
            }
            k = k + 1;
        }
        if m != si {
            let ghost before = entries@;
            let ecat_i = entries[si].category.clone();
            let ems_i = entries[si].millis;
            let ecat_m = entries[m].category.clone();
            let ems_m = entries[m].millis;
            entries.set(si, CategoryTotal { category: ecat_m, millis: ems_m });
            entries.set(m, CategoryTotal { category: ecat_i, millis: ems_i });
            proof {
                assert(entries@[si as int] == before[m as int]);
                assert(entries@[m as int] == before[si as int]);
                assert forall|k2: int|
                    0 <= k2 < entries@.len() && k2 != si && k2 != m implies entries@[k2]
                    == before[k2] by {}
                assert forall|cc: Seq<char>| #[trigger] present(blocks@, *now, cc) implies exists|
                    k2: int,
                | 0 <= k2 < entries@.len() && #[trigger] entries@[k2].category@ == cc by {
                    let k1 = choose|k1: int|
                        0 <= k1 < before.len() && #[trigger] before[k1].category@ == cc;
                    if k1 == si {
                        assert(entries@[m as int].category@ == cc);
                    } else if k1 == m {
                        assert(entries@[si as int].category@ == cc);
                    } else {
                        assert(entries@[k1].category@ == cc);
                    }
                }
            }
        }
        si = si + 1;
    }
    proof {
        assert forall|a: int, b: int| 0 <= a < b < entries@.len() implies entry_precedes(
            #[trigger] entries@[a],
            #[trigger] entries@[b],
        ) by {
            lemma_lex_total(entries@[a].category@, entries@[b].category@);
            lemma_lex_irrefl(entries@[a].category@);
        }
    }
    DaySummary { worked_millis: worked, break_millis: brk, entries }
}

impl DaySummary {
    /// The grand total: worked plus break time.
    pub fn grand_total(&self) -> (r: u64)
        ensures
            r == sat_add(self.worked_millis, self.break_millis),
    {
        sat_add_u64(self.worked_millis, self.break_millis)
    }
}

/// How a civil reading corresponds to the stored blocks: instants agree
/// and every calendar reading is well-formed.
pub open spec fn civil_consistent(cb: Seq<CivilBlock>, blocks: Seq<TimeBlock>) -> bool {
    &&& cb.len() == blocks.len()
    &&& forall|i: int|
        0 <= i < cb.len() ==> {
            &&& (#[trigger] cb[i]).start.millis == blocks[i].start_unix
            &&& cb[i].start.wf()
            &&& (cb[i].end is Some <==> blocks[i].end_unix is Some)
            &&& (cb[i].end is Some ==> cb[i].end->0.millis == blocks[i].end_unix->0
                && cb[i].end->0.wf())
            &&& cb[i].category@ == blocks[i].category@
        }
}

/// Reads every block of the ledger as local civil time, or the range
/// error exactly when some timestamp lies beyond the civil-time range.
pub fn civil_blocks(data: &Data) -> (r: Result<Vec<CivilBlock>, LedgerError>)
    ensures
        match r {
            Ok(cb) => civil_consistent(cb@, data.blocks@) && forall|i: int|
                0 <= i < data.blocks@.len() ==> in_civil_range(#[trigger] data.blocks@[i]),
            Err(e) => e == LedgerError::TimestampOutOfRange && exists|i: int|
                0 <= i < data.blocks@.len() && !in_civil_range(#[trigger] data.blocks@[i]),
        },
        (forall|i: int| 0 <= i < data.blocks@.len() ==> in_civil_range(#[trigger] data.blocks@[i]))
            ==> r is Ok,
{
    let len = data.len();
    let mut cb: Vec<CivilBlock> = Vec::new();
    let mut i: usize = 0;
    while i < len
        invariant
            i <= len,
            len == data.blocks@.len(),
            cb@.len() == i,
            civil_consistent(cb@, data.blocks@.take(i as int)),
            forall|j: int| 0 <= j < i ==> in_civil_range(#[trigger] data.blocks@[j]),
        decreases len - i,
    {
        let b = data.get(i);
        if b.start_unix > MAX_CIVIL_MILLIS {
            return Err(LedgerError::TimestampOutOfRange);
        }
        let start = convert(b.start_unix);
        let end: Option<CivilStamp> = match b.end_unix {
            Some(e) => {
                if e > MAX_CIVIL_MILLIS {
                    return Err(LedgerError::TimestampOutOfRange);
                }
                Some(convert(e))
            },
            Option::None => Option::None,
        };
        cb.push(CivilBlock { start, end, category: b.category.clone() });
        i = i + 1;
    }
    proof {
        assert(data.blocks@.take(len as int) =~= data.blocks@);
    }
    Ok(cb)
}

/// What the daily view promises: some civil reading of the stored
/// instants, consistent with the machine's time zone, against which the
/// summary is correct.
pub open spec fn today_view_ok(s: DaySummary, blocks: Seq<TimeBlock>) -> bool {
    exists|cb: Seq<CivilBlock>, now: CivilStamp|
        #[trigger] civil_consistent(cb, blocks) && #[trigger] summary_correct(s, cb, now)
}

/// The daily view at the clock's current instant: whatever civil reading
/// the machine's time zone gives the stored instants, the summary is
/// correct against it. The range error comes only when a timestamp lies
/// beyond the civil-time range, and a block beyond that range always
/// forces it.
pub fn view_today(data: &Data) -> (r: Result<DaySummary, LedgerError>)
    ensures
        match r {
            Ok(s) => today_view_ok(s, data.blocks@),
            Err(e) => e == LedgerError::TimestampOutOfRange,
        },
        (exists|i: int| 0 <= i < data.blocks@.len() && !in_civil_range(#[trigger] data.blocks@[i]))
            ==> r is Err,
{
    let now_ms = since_unix();
    if now_ms > MAX_CIVIL_MILLIS {
        return Err(LedgerError::TimestampOutOfRange);
    }
    let now = convert(now_ms);
    let cb = match civil_blocks(data) {
        Ok(cb) => cb,
        Err(e) => {
            return Err(e);
        },
    };
    let s = day_view(&cb, &now);
    proof {
        assert(civil_consistent(cb@, data.blocks@) && summary_correct(s, cb@, now));
        assert(today_view_ok(s, data.blocks@));
    }
    Ok(s)
}

/// The breakdown order is asymmetric.
proof fn lemma_precedes_asym(a: CategoryTotal, b: CategoryTotal)
    requires
        entry_precedes(a, b),
    ensures
        !entry_precedes(b, a),
{
    if a.millis == b.millis && entry_precedes(b, a) {
        lemma_lex_trans(a.category@, b.category@, a.category@);
        lemma_lex_irrefl(a.category@);
    }
}

/// Up to position `i`, two correct breakdowns agree entry by entry.
proof fn lemma_breakdown_pointwise(
    u: Seq<CategoryTotal>,
    v: Seq<CategoryTotal>,
    blocks: Seq<CivilBlock>,
    now: CivilStamp,
    i: int,
)
    requires
        entries_valid(u, blocks, now),
        entries_valid(v, blocks, now),
        entries_cover(u, blocks, now),
        entries_cover(v, blocks, now),
        entries_distinct(u),
        entries_distinct(v),
        entries_sorted(u),
        entries_sorted(v),
        0 <= i < u.len(),
        i < v.len(),
    ensures
        forall|i2: int|
            0 <= i2 <= i ==> (#[trigger] u[i2]).category@ == v[i2].category@ && u[i2].millis
                == v[i2].millis,
    decreases i,
{
    if i > 0 {
        lemma_breakdown_pointwise(u, v, blocks, now, i - 1);
    }
    assert(present(blocks, now, u[i].category@));
    let j = choose|j: int| 0 <= j < v.len() && #[trigger] v[j].category@ == u[i].category@;
    if j < i {
        // Below `i` the two agree, so `u[i]`'s category would repeat in `u`.
        assert(u[j].category@ == v[j].category@);
        assert(false);
    }
    if j > i {
        assert(present(blocks, now, v[i].category@));
        let k = choose|k: int| 0 <= k < u.len() && #[trigger] u[k].category@ == v[i].category@;
        if k < i {
            assert(u[k].category@ == v[k].category@);
            assert(false);
        }
        if k > i {
            // `u[k]` carries `v[i]`'s data and `v[j]` carries `u[i]`'s, and
            // equal categories have equal totals, so the two orders clash.
            assert(u[k].millis == v[i].millis);
            assert(u[i].millis == v[j].millis);
            assert(entry_precedes(v[i], v[j]));
            assert(entry_precedes(u[i], u[k]));
            assert(entry_precedes(u[k], u[i]));
            lemma_precedes_asym(u[i], u[k]);
            assert(false);
        }
        // `k == i`: then `v[i]` and `v[j]` share a category.
        assert(v[i].category@ == u[i].category@);
        assert(false);
    }
    assert(u[i].category@ == v[i].category@);
    assert(u[i].millis == v[i].millis);
}

/// For a fixed civil instant the daily view is a function of the blocks
/// alone: any two summaries correct against the same blocks and instant
/// agree on every total and on the whole breakdown, so recomputing the
/// view at a fixed `now` yields the same answer every time.
pub proof fn law_view_idempotent(
    s1: DaySummary,
    s2: DaySummary,
    blocks: Seq<CivilBlock>,
    now: CivilStamp,
)
    requires
        summary_correct(s1, blocks, now),
        summary_correct(s2, blocks, now),
    ensures
        s1.worked_millis == s2.worked_millis,
        s1.break_millis == s2.break_millis,
        s1.entries@.len() == s2.entries@.len(),
        forall|i: int|
            0 <= i < s1.entries@.len() ==> (#[trigger] s1.entries@[i]).category@
                == s2.entries@[i].category@ && s1.entries@[i].millis == s2.entries@[i].millis,
{
    let u = s1.entries@;
    let v = s2.entries@;
    if u.len() > 0 && v.len() > 0 {
        let short = if u.len() < v.len() {
            u.len() as int
        } else {
            v.len() as int
        };
        lemma_breakdown_pointwise(u, v, blocks, now, short - 1);
    }
    if u.len() < v.len() {
        // The extra entry of `v` would repeat a category of its prefix.
        let extra = u.len() as int;
        assert(present(blocks, now, v[extra].category@));
        let k = choose|k: int| 0 <= k < u.len() && #[trigger] u[k].category@ == v[extra].category@;
        assert(u[k].category@ == v[k].category@);
        assert(false);
    }
    if v.len() < u.len() {
        let extra = v.len() as int;
        assert(present(blocks, now, u[extra].category@));
        let k = choose|k: int| 0 <= k < v.len() && #[trigger] v[k].category@ == u[extra].category@;
        assert(v[k].category@ == u[k].category@);
        assert(false);
    }
}

/// An open block always belongs to today; it contributes the span from
/// its start to `now` when it started today, and the span since local
/// midnight otherwise — a function of the block and `now` alone, so the
/// same on every recomputation at a fixed `now`.
pub proof fn law_open_block_contribution(b: CivilBlock, now: CivilStamp)
    requires
        b.end is None,
    ensures
        relevant(b, now),
        same_civil_day(now, b.start) ==> counted_millis(b, now) == sat_sub(
            now.millis,
            b.start.millis,
        ),
        !same_civil_day(now, b.start) ==> counted_millis(b, now) == msm(now),
{
}

/// A block that started on an earlier day and ends today contributes the
/// span from local midnight to its end, not its full length.
pub proof fn law_day_boundary(b: CivilBlock, now: CivilStamp)
    requires
        b.end is Some,
        same_civil_day(now, b.end->0),
        !same_civil_day(now, b.start),
        b.end->0.millis <= now.millis,
    ensures
        relevant(b, now),
        counted_millis(b, now) == msm(b.end->0),
{
}

} // verus!
