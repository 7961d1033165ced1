//! Terminal foreground colors and the banded threshold policy that picks a
//! color for each metric.
//!
//! Every colorized metric follows the same rule: two exclusive lower bounds
//! are checked from the highest down, and the first one exceeded selects the
//! color; otherwise a per-metric base color applies. Percentages of a
//! `used / total` pair are compared exactly, as rationals, by cross
//! multiplication, so no precision is lost at the boundaries.

use vstd::prelude::*;

verus! {

/// A terminal foreground color.
#[derive(Clone, Copy, Debug, PartialEq, Eq, Structural)]
pub enum Color {
    Cyan,
    Green,
    Red,
    Yellow,
    Blue,
    Magenta,
    DarkGrey,
    White,
}

/// The banded threshold rule: `num / den` (a percentage scaled so that the
/// bounds are plain percents) selects `hi_color` when it strictly exceeds
/// `hi`, else `mid_color` when it strictly exceeds `mid`, else `base`.
/// A zero denominator counts as zero percent and selects `base`.
pub open spec fn spec_banded_color(
    num: nat,
    den: nat,
    hi: u64,
    hi_color: Color,
    mid: u64,
    mid_color: Color,
    base: Color,
) -> Color {
    if den > 0 && num > den * hi {
        hi_color
    } else if den > 0 && num > den * mid {
        mid_color
    } else {
        base
    }
}

/// Selects a color by the banded threshold rule; the one lookup shared by
/// every colorized metric.
pub fn banded_color(
    num: u128,
    den: u128,
    hi: u64,
    hi_color: Color,
    mid: u64,
    mid_color: Color,
    base: Color,
) -> (c: Color)
    requires
        den <= u64::MAX,
        hi <= 100,
        mid <= 100,
    ensures
        c == spec_banded_color(num as nat, den as nat, hi, hi_color, mid, mid_color, base),
{
    let hi128: u128 = hi as u128;
    let mid128: u128 = mid as u128;
    proof {
        assert(den * hi128 <= 0xFFFF_FFFF_FFFF_FFFFu128 * 100) by (nonlinear_arith)
            requires
                den <= 0xFFFF_FFFF_FFFF_FFFFu128,
                hi128 <= 100,
        ;
        assert(den * mid128 <= 0xFFFF_FFFF_FFFF_FFFFu128 * 100) by (nonlinear_arith)
            requires
                den <= 0xFFFF_FFFF_FFFF_FFFFu128,
                mid128 <= 100,
        ;
    }
    if den > 0 && num > den * hi128 {
        hi_color
    } else if den > 0 && num > den * mid128 {
        mid_color
    } else {
        base
    }
}

/// Color of the aggregate CPU usage line; `usage_hundredths` is the usage
/// percentage in hundredths. Above 80% red, above 60% yellow, else green.
pub open spec fn spec_cpu_color(usage_hundredths: nat) -> Color {
    spec_banded_color(usage_hundredths, 100, 80, Color::Red, 60, Color::Yellow, Color::Green)
}

/// Color of the memory line from the used/total byte counts. Above 90% red,
/// above 75% yellow, else blue.
pub open spec fn spec_memory_color(used: nat, total: nat) -> Color {
    spec_banded_color(used * 100, total, 90, Color::Red, 75, Color::Yellow, Color::Blue)
}

/// Color of the swap line from the used/total byte counts. Above 50% red,
/// above 25% yellow, else blue; zero total counts as zero percent.
pub open spec fn spec_swap_color(used: nat, total: nat) -> Color {
    spec_banded_color(used * 100, total, 50, Color::Red, 25, Color::Yellow, Color::Blue)
}

/// Color of one disk line from its used/total byte counts. Above 90% red,
/// above 80% yellow, else dark grey.
pub open spec fn spec_disk_color(used: nat, total: nat) -> Color {
    spec_banded_color(used * 100, total, 90, Color::Red, 80, Color::Yellow, Color::DarkGrey)
}

/// Color of one process line; `cpu_hundredths` is the process CPU percentage
/// in hundredths. Above 50% red, above 20% yellow, else white.
pub open spec fn spec_process_color(cpu_hundredths: nat) -> Color {
    spec_banded_color(cpu_hundredths, 100, 50, Color::Red, 20, Color::Yellow, Color::White)
}

/// CPU usage color: a pure function of the usage value and the threshold
/// table alone.
pub fn cpu_color(usage_hundredths: u64) -> (c: Color)
    ensures
        c == spec_cpu_color(usage_hundredths as nat),
{
    banded_color(usage_hundredths as u128, 100, 80, Color::Red, 60, Color::Yellow, Color::Green)
}

/// Memory line color from the exact byte counts.
pub fn memory_color(used: u64, total: u64) -> (c: Color)
    ensures
        c == spec_memory_color(used as nat, total as nat),
{
    banded_color(used as u128 * 100, total as u128, 90, Color::Red, 75, Color::Yellow, Color::Blue)
}

/// Swap line color from the exact byte counts; zero total selects blue.
pub fn swap_color(used: u64, total: u64) -> (c: Color)
    ensures
        c == spec_swap_color(used as nat, total as nat),
{
    banded_color(used as u128 * 100, total as u128, 50, Color::Red, 25, Color::Yellow, Color::Blue)
}

/// Disk line color from the exact byte counts.
pub fn disk_color(used: u64, total: u64) -> (c: Color)
    ensures
        c == spec_disk_color(used as nat, total as nat),
{
    banded_color(
        used as u128 * 100,
        total as u128,
        90,
        Color::Red,
        80,
        Color::Yellow,
        Color::DarkGrey,
    )
}

/// Process line color: a pure function of the process CPU value and the
/// threshold table alone.
pub fn process_color(cpu_hundredths: u64) -> (c: Color)
    ensures
        c == spec_process_color(cpu_hundredths as nat),
{
    banded_color(cpu_hundredths as u128, 100, 50, Color::Red, 20, Color::Yellow, Color::White)
}

} // verus!
