use crate::consts::{LINES_PER_LEVEL, MAX_LEVEL};
use vstd::prelude::*;

verus! {

/// Points for clearing `n` lines at once at level 0.
pub open spec fn line_points(n: int) -> int {
    if n == 1 {
        40
    } else if n == 2 {
        100
    } else if n == 3 {
        300
    } else {
        1200
    }
}

/// Points for clearing `n` lines at once at `level`.
pub open spec fn score_for(level: int, n: int) -> int {
    line_points(n) * (level + 1)
}

/// The level reached after clearing `total` lines in all.
pub open spec fn level_for(total: int) -> int {
    if total / LINES_PER_LEVEL as int <= MAX_LEVEL {
        total / LINES_PER_LEVEL as int
    } else {
        MAX_LEVEL as int
    }
}

/// Points for clearing `erase_lines` lines at once at `level`: 40, 100, 300
/// or 1200, times the level plus one.
pub fn get_score(level: u32, erase_lines: u32) -> (r: u32)
    requires
        0 < erase_lines <= 4,
        score_for(level as int, erase_lines as int) <= u32::MAX,
    ensures
        r == score_for(level as int, erase_lines as int),
{
    let table: [u32; 4] = [40, 100, 300, 1200];
    let points = table[(erase_lines - 1) as usize];
    assert(points == line_points(erase_lines as int));
    points * (level + 1)
}

/// The level reached after clearing `total_lines` lines: one more every ten
/// lines, at most 99.
pub fn get_level(total_lines: u32) -> (r: u32)
    ensures
        r == level_for(total_lines as int),
        r <= MAX_LEVEL,
{
    let level = total_lines / LINES_PER_LEVEL;
    if level <= MAX_LEVEL {
        level
    } else {
        MAX_LEVEL
    }
}

/// The points for a clear at any level are those at level 0 times the
/// level plus one.
pub proof fn lemma_score_scales_with_level(level: int, n: int)
    requires
        0 <= level,
        1 <= n <= 4,
    ensures
        score_for(level, n) == score_for(0, n) * (level + 1),
{
}

/// Levels never go down as more lines are cleared.
pub proof fn lemma_level_monotonic(a: int, b: int)
    requires
        0 <= a <= b,
    ensures
        level_for(a) <= level_for(b),
{
    assert(a / 10 <= b / 10) by (nonlinear_arith)
        requires
            0 <= a <= b,
    ;
}

} // verus!
