//! Table-selection controller: moves the highlighted row through a row count
//! that changes as records are inserted or filtered, wrapping at both ends
//! and refusing to select anything in an empty table.

use vstd::prelude::*;

verus! {

/// A selection is valid over a row count when it either selects nothing or
/// selects an existing row.
pub open spec fn valid_selection(sel: Option<usize>, count: usize) -> bool {
    sel matches Some(i) ==> i < count
}

/// Where the highlight lands after one step down from `current` over
/// `count` rows: wraps from the last row to the first, picks the first row
/// when nothing is selected, and selects nothing over an empty table.
pub open spec fn spec_advance(current: Option<usize>, count: usize) -> Option<usize> {
    if count == 0 {
        None
    } else {
        match current {
            None => Some(0usize),
            Some(i) => if i + 1 >= count { Some(0usize) } else { Some((i + 1) as usize) },
        }
    }
}

/// Where the highlight lands after one step up from `current` over `count`
/// rows: wraps from the first row to the last, picks the first row when
/// nothing is selected, and selects nothing over an empty table.
pub open spec fn spec_retreat(current: Option<usize>, count: usize) -> Option<usize> {
    if count == 0 {
        None
    } else {
        match current {
            None => Some(0usize),
            Some(i) => if i == 0 { Some((count - 1) as usize) } else { Some((i - 1) as usize) },
        }
    }
}

/// Move the selection one row down, wrapping from the last row to the
/// first. An empty table yields no selection; no arithmetic underflows.
pub fn advance(current: Option<usize>, count: usize) -> (next: Option<usize>)
    ensures
        next == spec_advance(current, count),
        count == 0 ==> next is None,
        valid_selection(next, count),
{
    if count == 0 {
        None
    } else {
        match current {
            None => Some(0),
            Some(i) => if i >= count - 1 { Some(0) } else { Some(i + 1) },
        }
    }
}

/// Move the selection one row up, wrapping from the first row to the last.
/// An empty table yields no selection; no arithmetic underflows.
pub fn retreat(current: Option<usize>, count: usize) -> (next: Option<usize>)
    ensures
        next == spec_retreat(current, count),
        count == 0 ==> next is None,
        valid_selection(current, count) ==> valid_selection(next, count),
{
    if count == 0 {
        None
    } else {
        match current {
            None => Some(0),
            Some(i) => if i == 0 { Some(count - 1) } else { Some(i - 1) },
        }
    }
}

/// Law: over an unchanged, non-empty row count, stepping the selection down
/// and then up returns it to the starting row.
pub proof fn lemma_advance_retreat_round_trip(i: usize, count: usize)
    requires
        0 < count,
        i < count,
    ensures
        spec_retreat(spec_advance(Some(i), count), count) == Some(i),
{
}

} // verus!
