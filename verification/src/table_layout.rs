//! Column-width allocation for width-responsive Markdown tables.
//!
//! Every column starts at its preferred width clamped to a small readable
//! range; any room left over is handed out one column at a time, in column
//! order, round after round, until each column reaches its preferred width
//! or the room runs out.
use vstd::prelude::*;

verus! {

/// Columns between two adjacent table cells (` │ `).
pub const TABLE_COLUMN_GAP: u16 = 3;
/// Narrowest width a column starts at.
pub const MIN_TABLE_COLUMN_WIDTH: u16 = 3;
/// Widest width a column starts at before leftover room is shared out.
pub const TARGET_TABLE_COLUMN_WIDTH: u16 = 8;

/// A preferred width clamped to the starting range.
pub open spec fn clamped_width(preferred: u16) -> u16 {
    if preferred < MIN_TABLE_COLUMN_WIDTH {
        MIN_TABLE_COLUMN_WIDTH
    } else if preferred > TARGET_TABLE_COLUMN_WIDTH {
        TARGET_TABLE_COLUMN_WIDTH
    } else {
        preferred
    }
}

/// How much a column may grow beyond its starting width.
pub open spec fn growth_cap(preferred: u16) -> int {
    if preferred > clamped_width(preferred) {
        preferred - clamped_width(preferred)
    } else {
        0
    }
}

pub open spec fn min_int(a: int, b: int) -> int {
    if a <= b {
        a
    } else {
        b
    }
}

/// Saturates a non-negative integer into the `u16` range.
pub open spec fn sat16(x: int) -> u16 {
    if x > u16::MAX {
        u16::MAX
    } else {
        x as u16
    }
}

/// Sum of the starting widths of the first `n` columns.
pub open spec fn clamped_sum(preferred: Seq<u16>, n: int) -> int
    decreases n,
{
    if n <= 0 {
        0
    } else {
        clamped_sum(preferred, n - 1) + clamped_width(preferred[n - 1])
    }
}

/// Room used by `rounds` full growth rounds over the first `n` columns.
pub open spec fn used_after(preferred: Seq<u16>, rounds: int, n: int) -> int
    decreases n,
{
    if n <= 0 {
        0
    } else {
        used_after(preferred, rounds, n - 1) + min_int(rounds, growth_cap(preferred[n - 1]))
    }
}

/// Room needed to bring the first `n` columns to their preferred widths.
pub open spec fn total_growth(preferred: Seq<u16>, n: int) -> int
    decreases n,
{
    if n <= 0 {
        0
    } else {
        total_growth(preferred, n - 1) + growth_cap(preferred[n - 1])
    }
}

/// Whether column `i` still grows in the round after `rounds` full rounds.
pub open spec fn still_growing(preferred: Seq<u16>, rounds: int, i: int) -> bool {
    rounds < growth_cap(preferred[i])
}

/// Number of columns before `n` that still grow after `rounds` full rounds.
pub open spec fn growing_before(preferred: Seq<u16>, rounds: int, n: int) -> int
    decreases n,
{
    if n <= 0 {
        0
    } else {
        growing_before(preferred, rounds, n - 1) + (if still_growing(preferred, rounds, n - 1) {
            1int
        } else {
            0int
        })
    }
}

/// Width of column `i` after `rounds` full rounds plus a partial round that
/// grows only the first `extra` columns still growing.
pub open spec fn width_after(preferred: Seq<u16>, rounds: int, extra: int, i: int) -> int {
    clamped_width(preferred[i]) + min_int(rounds, growth_cap(preferred[i])) + (if still_growing(
        preferred,
        rounds,
        i,
    ) && growing_before(preferred, rounds, i) < extra {
        1int
    } else {
        0int
    })
}

/// Columns taken by the gaps between `count` columns.
pub open spec fn gaps_width(count: int) -> u16 {
    sat16(TABLE_COLUMN_GAP * (if count > 0 { count - 1 } else { 0 }))
}

/// Smallest table width: every column at its starting width plus the gaps.
pub open spec fn minimum_table_width(preferred: Seq<u16>) -> u16 {
    sat16(gaps_width(preferred.len() as int) + clamped_sum(preferred, preferred.len() as int))
}

/// `widths` is what `rounds` full rounds plus a partial round over the first
/// `extra` still-growing columns produce, and together they use `room`.
pub open spec fn is_round_robin_allocation(
    widths: Seq<u16>,
    preferred: Seq<u16>,
    room: int,
    rounds: int,
    extra: int,
) -> bool {
    &&& rounds >= 0
    &&& 0 <= extra <= growing_before(preferred, rounds, preferred.len() as int)
    &&& used_after(preferred, rounds, preferred.len() as int) + extra == room
    &&& widths.len() == preferred.len()
    &&& forall|i: int|
        0 <= i < widths.len() ==> #[trigger] widths[i] == width_after(preferred, rounds, extra, i)
}

proof fn lemma_used_bounds(preferred: Seq<u16>, rounds: int, n: int)
    requires
        rounds >= 0,
        0 <= n <= preferred.len(),
    ensures
        0 <= used_after(preferred, rounds, n) <= total_growth(preferred, n),
        used_after(preferred, rounds + 1, n) == used_after(preferred, rounds, n) + growing_before(
            preferred,
            rounds,
            n,
        ),
        growing_before(preferred, rounds, n) == 0 ==> used_after(preferred, rounds, n)
            == total_growth(preferred, n),
        growing_before(preferred, rounds, n) >= 0,
    decreases n,
{
    if n > 0 {
        lemma_used_bounds(preferred, rounds, n - 1);
    }
}

proof fn lemma_growing_before_nonneg(preferred: Seq<u16>, rounds: int, n: int)
    ensures
        growing_before(preferred, rounds, n) >= 0,
    decreases n,
{
    if n > 0 {
        lemma_growing_before_nonneg(preferred, rounds, n - 1);
    }
}

proof fn lemma_used_zero(preferred: Seq<u16>, n: int)
    requires
        0 <= n <= preferred.len(),
    ensures
        used_after(preferred, 0, n) == 0,
    decreases n,
{
    if n > 0 {
        lemma_used_zero(preferred, n - 1);
    }
}

proof fn lemma_growing_before_monotone(preferred: Seq<u16>, rounds: int, i: int, n: int)
    requires
        0 <= i <= n <= preferred.len(),
    ensures
        growing_before(preferred, rounds, i) <= growing_before(preferred, rounds, n),
    decreases n - i,
{
    if i < n {
        lemma_growing_before_monotone(preferred, rounds, i, n - 1);
    }
}

/// Allocates column widths for a table of `preferred` widths in `available`
/// columns, or `None` when even the starting widths and gaps do not fit.
///
/// Each column starts at its preferred width clamped to the starting range;
/// the room left is shared out in rounds of one column each, in column order,
/// to columns still below their preferred width.
pub fn allocate_column_widths(preferred: &[u16], available: u16) -> (res: Option<Vec<u16>>)
    ensures
        match res {
            None => preferred@.len() > 0 && minimum_table_width(preferred@) > available,
            Some(w) => if preferred@.len() == 0 {
                w@.len() == 0
            } else {
                allocated_widths(preferred@, available, w@)
            },
        },
{
    let m = preferred.len();
    if m == 0 {
        return Some(Vec::new());
    }
    let gap_count: u16 = if m - 1 > u16::MAX as usize {
        u16::MAX
    } else {
        (m - 1) as u16
    };
    let gaps: u16 = if gap_count > u16::MAX / TABLE_COLUMN_GAP {
        u16::MAX
    } else {
        TABLE_COLUMN_GAP * gap_count
    };
    assert(gaps == gaps_width(m as int));
    let mut widths: Vec<u16> = Vec::new();
    let mut minimum: u16 = gaps;
    let mut i: usize = 0;
    while i < m
        invariant
            m == preferred@.len(),
            i <= m,
            widths@.len() == i,
            forall|k: int| 0 <= k < i ==> #[trigger] widths@[k] == clamped_width(preferred@[k]),
            minimum == sat16(gaps + clamped_sum(preferred@, i as int)),
            clamped_sum(preferred@, i as int) >= 0,
        decreases m - i,
    {
        let p = preferred[i];
        let clamped = if p < MIN_TABLE_COLUMN_WIDTH {
            MIN_TABLE_COLUMN_WIDTH
        } else if p > TARGET_TABLE_COLUMN_WIDTH {
            TARGET_TABLE_COLUMN_WIDTH
        } else {
            p
        };
        widths.push(clamped);
        minimum = minimum.saturating_add(clamped);
        i = i + 1;
    }
    if minimum > available {
        return None;
    }
    let ghost room: int = available - minimum;
    let ghost total: int = total_growth(preferred@, m as int);
    let ghost mut rounds: int = 0;
    proof {
        lemma_used_bounds(preferred@, 0, m as int);
        lemma_used_zero(preferred@, m as int);
        assert forall|k: int| 0 <= k < m implies #[trigger] widths@[k] == width_after(
            preferred@,
            0,
            0,
            k,
        ) by {
            lemma_growing_before_nonneg(preferred@, 0, k);
        }
    }
    let mut remaining: u16 = available - minimum;
    let mut finished = false;
    let mut exhausted = false;
    while remaining > 0 && !finished && !exhausted
        invariant
            m == preferred@.len(),
            m > 0,
            widths@.len() == m,
            rounds >= 0,
            room >= 0,
            total == total_growth(preferred@, m as int),
            !finished ==> remaining as int == room - used_after(preferred@, rounds, m as int),
            !finished ==> forall|k: int|
                0 <= k < m ==> #[trigger] widths@[k] == width_after(preferred@, rounds, 0, k),
            exhausted ==> growing_before(preferred@, rounds, m as int) == 0,
            finished ==> remaining == 0 && exists|extra: int| #[trigger] is_round_robin_allocation(widths@, preferred@, room, rounds, extra),
        decreases total - used_after(preferred@, rounds, m as int), (if finished || exhausted {
            0int
        } else {
            1int
        }),
    {
        proof {
            lemma_used_bounds(preferred@, rounds, m as int);
        }
        let ghost start_widths = widths@;
        let mut grew = false;
        let mut j: usize = 0;
        let mut stopped = false;
        while j < m && !stopped
            invariant
                m == preferred@.len(),
                widths@.len() == m,
                j <= m,
                rounds >= 0,
                forall|k: int|
                    0 <= k < m ==> start_widths[k] == width_after(preferred@, rounds, 0, k),
                !stopped ==> forall|k: int|
                    0 <= k < m ==> #[trigger] widths@[k] == width_after(
                        preferred@,
                        rounds,
                        growing_before(preferred@, rounds, j as int),
                        k,
                    ),
                !stopped ==> remaining as int == room - used_after(preferred@, rounds, m as int)
                    - growing_before(preferred@, rounds, j as int),
                !stopped ==> remaining > 0,
                stopped ==> remaining == 0 && exists|extra: int| #[trigger] is_round_robin_allocation(widths@, preferred@, room, rounds, extra),
                !stopped ==> grew == (growing_before(preferred@, rounds, j as int) > 0),
            decreases m - j + (if stopped { 0int } else { 1int }),
        {
            proof {
                lemma_growing_before_nonneg(preferred@, rounds, j as int);
                lemma_growing_before_monotone(preferred@, rounds, j as int, m as int);
                lemma_growing_before_monotone(preferred@, rounds, j + 1, m as int);
            }
            let ghost before_j = growing_before(preferred@, rounds, j as int);
            assert(widths@[j as int] == width_after(preferred@, rounds, before_j, j as int));
            if widths[j] < preferred[j] {
                assert(still_growing(preferred@, rounds, j as int));
                widths.set(j, widths[j] + 1);
                remaining = remaining - 1;
                grew = true;
                assert forall|k: int| 0 <= k < m implies #[trigger] widths@[k] == width_after(
                    preferred@,
                    rounds,
                    before_j + 1,
                    k,
                ) by {
                    if k < j {
                        lemma_growing_before_monotone(preferred@, rounds, k + 1, j as int);
                    } else if k > j {
                        lemma_growing_before_monotone(preferred@, rounds, j + 1, k);
                    }
                }
                if remaining == 0 {
                    assert(growing_before(preferred@, rounds, j + 1) == before_j + 1);
                    assert(used_after(preferred@, rounds, m as int) + before_j + 1 == room);
                    assert(before_j + 1 <= growing_before(preferred@, rounds, m as int));
                    assert(is_round_robin_allocation(widths@, preferred@, room, rounds, before_j + 1));
                    stopped = true;
                }
            } else {
                assert(!still_growing(preferred@, rounds, j as int));
            }
            if !stopped {
                j = j + 1;
            }
        }
        if stopped {
            finished = true;
        } else if !grew {
            exhausted = true;
        } else {
            proof {
                lemma_used_bounds(preferred@, rounds, m as int);
                assert forall|k: int| 0 <= k < m implies #[trigger] widths@[k] == width_after(
                    preferred@,
                    rounds + 1,
                    0,
                    k,
                ) by {
                    lemma_growing_before_nonneg(preferred@, rounds + 1, k);
                    lemma_growing_before_monotone(preferred@, rounds, k + 1, m as int);
                    assert(widths@[k] == width_after(
                        preferred@,
                        rounds,
                        growing_before(preferred@, rounds, m as int),
                        k,
                    ));
                }
                rounds = rounds + 1;
                lemma_used_bounds(preferred@, rounds, m as int);
            }
        }
    }
    proof {
        lemma_used_bounds(preferred@, rounds, m as int);
        lemma_used_bounds(preferred@, rounds + 1, m as int);
        assert(minimum == minimum_table_width(preferred@));
        if finished {
            let extra = choose|extra: int| #[trigger] is_round_robin_allocation(
                widths@,
                preferred@,
                room,
                rounds,
                extra,
            );
            assert(min_int(room, total) == room);
            assert(is_round_robin_allocation(widths@, preferred@, min_int(room, total), rounds, extra));
        } else if exhausted {
            assert(min_int(room, total) == total);
            assert(is_round_robin_allocation(widths@, preferred@, min_int(room, total), rounds, 0));
        } else {
            assert(min_int(room, total) == room);
            assert(is_round_robin_allocation(widths@, preferred@, min_int(room, total), rounds, 0));
        }
    }
    Some(widths)
}


/// Total of the first `n` widths.
pub open spec fn total_width(widths: Seq<u16>, n: int) -> int
    decreases n,
{
    if n <= 0 {
        0
    } else {
        total_width(widths, n - 1) + widths[n - 1]
    }
}

proof fn lemma_allocation_total(preferred: Seq<u16>, widths: Seq<u16>, rounds: int, extra: int, n: int)
    requires
        0 <= n <= preferred.len(),
        widths.len() == preferred.len(),
        rounds >= 0,
        extra >= 0,
        forall|i: int| 0 <= i < widths.len() ==> #[trigger] widths[i] == width_after(preferred, rounds, extra, i),
    ensures
        total_width(widths, n) == clamped_sum(preferred, n) + used_after(preferred, rounds, n)
            + min_int(extra, growing_before(preferred, rounds, n)),
    decreases n,
{
    if n > 0 {
        lemma_allocation_total(preferred, widths, rounds, extra, n - 1);
        assert(widths[n - 1] == width_after(preferred, rounds, extra, n - 1));
    }
}

/// Every allocated column lies between its starting width and its preferred
/// width (or its starting width, when that is larger), and an allocated
/// table fits the width it was given, gaps included, whenever its starting
/// widths and gaps do not overflow a `u16`.
pub proof fn law_allocation_fits(preferred: Seq<u16>, available: u16, widths: Seq<u16>)
    requires
        preferred.len() > 0,
        allocated_widths(preferred, available, widths),
        TABLE_COLUMN_GAP * (preferred.len() - 1) + clamped_sum(preferred, preferred.len() as int)
            <= u16::MAX,
    ensures
        widths.len() == preferred.len(),
        forall|i: int|
            0 <= i < widths.len() ==> clamped_width(preferred[i]) <= #[trigger] widths[i]
                <= clamped_width(preferred[i]) + growth_cap(preferred[i]),
        gaps_width(preferred.len() as int) + total_width(widths, widths.len() as int) <= available,
{
    let n = preferred.len() as int;
    let room = min_int(available - minimum_table_width(preferred), total_growth(preferred, n));
    let (rounds, extra) = choose|rounds: int, extra: int|
        #[trigger] is_round_robin_allocation(widths, preferred, room, rounds, extra);
    assert forall|i: int| 0 <= i < widths.len() implies clamped_width(preferred[i])
        <= #[trigger] widths[i] <= clamped_width(preferred[i]) + growth_cap(preferred[i]) by {
        assert(widths[i] == width_after(preferred, rounds, extra, i));
    }
    lemma_allocation_total(preferred, widths, rounds, extra, n);
}

/// `widths` is what the column allocation gives `preferred` at `available`
/// columns.
pub open spec fn allocated_widths(preferred: Seq<u16>, available: u16, widths: Seq<u16>) -> bool {
    minimum_table_width(preferred) <= available && exists|rounds: int, extra: int|
        #[trigger] is_round_robin_allocation(
            widths,
            preferred,
            min_int(
                available - minimum_table_width(preferred),
                total_growth(preferred, preferred.len() as int),
            ),
            rounds,
            extra,
        )
}

} // verus!
