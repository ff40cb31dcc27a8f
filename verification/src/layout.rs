//! Widths and units of the output.

use vstd::prelude::*;

verus! {

/// The width of the progress bar on a terminal of `term_width` columns:
/// what is left beside sixty columns of counters, but no more than forty
/// columns, and twenty on a narrow terminal.
pub open spec fn bar_width(term_width: int) -> int {
    if term_width > 60 {
        if term_width - 60 < 40 {
            term_width - 60
        } else {
            40
        }
    } else {
        20
    }
}

/// The width of a separator line: five columns less than the terminal, but
/// no more than eighty.
pub open spec fn rule_width(term_width: int) -> int {
    if term_width <= 5 {
        0
    } else if term_width - 5 < 80 {
        term_width - 5
    } else {
        80
    }
}

/// The number of unit names: B, KB, MB, GB and TB.
pub const UNIT_COUNT: usize = 5;

/// The index of the unit in which a size is shown: how often it can be
/// divided by 1024 and stay at or above 1024, up to the largest unit.
pub open spec fn size_unit(bytes: int) -> int {
    if bytes < 1024 {
        0
    } else if bytes < 1024 * 1024 {
        1
    } else if bytes < 1024 * 1024 * 1024 {
        2
    } else if bytes < 1024 * 1024 * 1024 * 1024 {
        3
    } else {
        4
    }
}

/// The name of a unit.
pub open spec fn unit_name(unit: int) -> Seq<char> {
    if unit == 0 {
        "B"@
    } else if unit == 1 {
        "KB"@
    } else if unit == 2 {
        "MB"@
    } else if unit == 3 {
        "GB"@
    } else {
        "TB"@
    }
}

/// Computes the width of the progress bar.
pub fn progress_bar_width(term_width: usize) -> (width: usize)
    ensures
        width == bar_width(term_width as int),
{
    if term_width > 60 {
        if term_width - 60 < 40 {
            term_width - 60
        } else {
            40
        }
    } else {
        20
    }
}

/// Computes the width of a separator line.
pub fn separator_width(term_width: usize) -> (width: usize)
    ensures
        width == rule_width(term_width as int),
{
    if term_width <= 5 {
        0
    } else if term_width - 5 < 80 {
        term_width - 5
    } else {
        80
    }
}

/// Finds the unit for a size by dividing it down, and returns the unit's
/// index with its name.
pub fn choose_size_unit(bytes: u64) -> (unit: (usize, &'static str))
    ensures
        unit.0 == size_unit(bytes as int),
        unit.1@ == unit_name(unit.0 as int),
{
    let mut size: u64 = bytes;
    let mut unit_idx: usize = 0;
    while size >= 1024 && unit_idx < UNIT_COUNT - 1
        invariant
            unit_idx <= 4,
            unit_idx == 0 ==> size == bytes,
            unit_idx == 1 ==> size == bytes / 1024,
            unit_idx == 2 ==> size == bytes / 1024 / 1024,
            unit_idx == 3 ==> size == bytes / 1024 / 1024 / 1024,
            unit_idx == 4 ==> size == bytes / 1024 / 1024 / 1024 / 1024,
            unit_idx > 0 ==> size_unit(bytes as int) >= unit_idx,
        decreases 4 - unit_idx,
    {
        size = size / 1024;
        unit_idx += 1;
    }
    let name = if unit_idx == 0 {
        "B"
    } else if unit_idx == 1 {
        "KB"
    } else if unit_idx == 2 {
        "MB"
    } else if unit_idx == 3 {
        "GB"
    } else {
        "TB"
    };
    (unit_idx, name)
}

} // verus!
