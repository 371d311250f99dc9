//! The scroll window shared by every widget: an offset that keeps the selected
//! index inside the visible band `[offset, offset + window)`.

use vstd::prelude::*;

verus! {

/// The offset after bringing index `s` into view: unchanged when `s` is already
/// visible, `s` when it lies above the window, `s - window + 1` when below.
pub open spec fn follow_to(s: int, window: int, offset: int) -> int {
    if s < offset {
        s
    } else if s >= offset + window {
        s - window + 1
    } else {
        offset
    }
}

/// The offset that `adjust` returns.
pub open spec fn follow(selected: Option<usize>, window: usize, offset: usize) -> int {
    match selected {
        None => offset as int,
        Some(s) => follow_to(s as int, window as int, offset as int),
    }
}

/// The largest offset that still fills the window: `max(0, total - window)`.
pub open spec fn max_offset(total: int, window: int) -> int {
    if total > window { total - window } else { 0 }
}

/// `selected` lies inside the band `[offset, offset + window)`.
pub open spec fn in_window(selected: int, offset: int, window: int) -> bool {
    offset <= selected < offset + window
}

/// Moves `offset` just far enough that `selected` becomes visible.
pub fn adjust(selected: Option<usize>, total: usize, window: usize, offset: usize) -> (r: usize)
    requires
        window > 0,
    ensures
        r == follow(selected, window, offset),
        selected matches Some(s) ==> in_window(s as int, r as int, window as int),
        selected matches Some(s) && s < total && offset <= max_offset(total as int, window as int)
            ==> r <= max_offset(total as int, window as int),
{
    match selected {
        None => offset,
        Some(s) => {
            if s < offset {
                s
            } else if s - offset >= window {
                s - window + 1
            } else {
                offset
            }
        },
    }
}

} // verus!
