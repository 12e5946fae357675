//! Which lines of a buffer the view shows: it shows `height` lines, from a
//! first line on, and scrolls to keep the cursor in sight.
use vstd::prelude::*;

verus! {

/// The first line shown after scrolling just enough to bring `line` into a
/// view of `height` lines that showed lines from `offset` on: a line above
/// the view becomes its first line, a line below it becomes its last, and a
/// line in view changes nothing. A view of no lines starts at `line`.
pub open spec fn scrolled_into_view(offset: usize, line: usize, height: usize) -> usize {
    if line < offset || height == 0 {
        line
    } else if line >= offset + height {
        (line + 1 - height) as usize
    } else {
        offset
    }
}

/// The first line shown when `line` is in the middle of a view of `height`
/// lines (or as near the middle as the start of the buffer allows).
pub open spec fn centered(line: usize, height: usize) -> usize {
    if line >= height / 2 {
        (line - height / 2) as usize
    } else {
        0
    }
}

/// Scrolls a view of `height` lines that shows lines from `offset` on just
/// enough to bring `line` into it; returns its new first line.
pub fn scroll_into_view(offset: usize, line: usize, height: usize) -> (first: usize)
    ensures
        first == scrolled_into_view(offset, line, height),
{
    if line < offset || height == 0 {
        line
    } else if line - offset >= height {
        line - height + 1
    } else {
        offset
    }
}

/// The first line of a view of `height` lines with `line` in the middle.
pub fn center_on(line: usize, height: usize) -> (first: usize)
    ensures
        first == centered(line, height),
{
    let half = height / 2;
    if line >= half {
        line - half
    } else {
        0
    }
}

} // verus!
