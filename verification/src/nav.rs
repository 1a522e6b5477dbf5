//! Navigation and viewport arithmetic: the pure transition functions behind
//! every cursor movement, the scroll clamping used after a resize, and the
//! proofs that each movement keeps the cursor inside the viewport.
//!
//! Positions are diff-list indices; a row holds `bpr` consecutive entries,
//! `lines` rows are visible, and `scroll` is the index of the first visible
//! row.

use vstd::prelude::*;
use vstd::arithmetic::div_mod::{
    lemma_basic_div, lemma_div_is_ordered, lemma_div_minus_one, lemma_div_nonincreasing,
    lemma_div_plus_one, lemma_div_pos_is_pos,
};
use vstd::math::min;

verus! {

/// The viewport row a diff-list position falls in.
pub open spec fn row_of(pos: int, bpr: int) -> int
    recommends
        bpr >= 1,
{
    pos / bpr
}

/// How many rows the whole diff list occupies.
pub open spec fn spec_total_rows(len: int, bpr: int) -> int
    recommends
        bpr >= 1,
{
    if len <= 0 {
        0
    } else {
        (len - 1) / bpr + 1
    }
}

/// The rows left for content once the fixed chrome (borders and the info
/// bar) is taken off the terminal height.
pub open spec fn spec_visible_rows(height: u16) -> int {
    if height >= 5 {
        height - 5
    } else {
        0
    }
}

/// Cursor after moving one row down: one full row forward, clamped to the
/// last entry; unchanged when already on the last entry.
pub open spec fn down_cursor(cursor: int, bpr: int, len: int) -> int {
    if cursor < len - 1 {
        min(cursor + bpr, len - 1)
    } else {
        cursor
    }
}

/// Scroll after moving down: creeps forward a single row when the cursor's
/// new row leaves the viewport and more content lies below.
pub open spec fn down_scroll(cursor: int, scroll: int, bpr: int, len: int, lines: int) -> int {
    let nr = row_of(down_cursor(cursor, bpr, len), bpr);
    if nr >= scroll + lines && scroll + lines < spec_total_rows(len, bpr) {
        scroll + 1
    } else {
        scroll
    }
}

/// Cursor after moving one row up: one full row back, clamped to the first
/// entry.
pub open spec fn up_cursor(cursor: int, bpr: int) -> int {
    if cursor >= bpr {
        cursor - bpr
    } else {
        0
    }
}

/// Scroll after moving up: creeps back a single row when the cursor's new
/// row rises above the viewport.
pub open spec fn up_scroll(cursor: int, scroll: int, bpr: int) -> int {
    if row_of(up_cursor(cursor, bpr), bpr) < scroll {
        scroll - 1
    } else {
        scroll
    }
}

/// Cursor after moving one position right, clamped to the last entry.
pub open spec fn right_cursor(cursor: int, len: int) -> int {
    if cursor < len - 1 {
        cursor + 1
    } else {
        cursor
    }
}

/// Scroll after moving right: when the cursor wraps past the bottom of the
/// viewport the scroll is recomputed directly (not crept), clamped at zero.
pub open spec fn right_scroll(cursor: int, scroll: int, bpr: int, len: int, lines: int) -> int {
    let nr = row_of(right_cursor(cursor, len), bpr);
    if nr >= scroll + lines {
        if nr + 1 - lines >= 0 {
            nr + 1 - lines
        } else {
            0
        }
    } else {
        scroll
    }
}

/// Cursor after moving one position left, stopped at the first entry.
pub open spec fn left_cursor(cursor: int) -> int {
    if cursor > 0 {
        cursor - 1
    } else {
        cursor
    }
}

/// Scroll after moving left: when the cursor wraps above the top of the
/// viewport the scroll jumps directly to the cursor's row.
pub open spec fn left_scroll(cursor: int, scroll: int, bpr: int) -> int {
    let nr = row_of(left_cursor(cursor), bpr);
    if nr < scroll {
        nr
    } else {
        scroll
    }
}

/// Cursor after jumping to a given index, clamped to the last entry.
pub open spec fn navigate_cursor(index: int, len: int) -> int {
    if index < len - 1 {
        index
    } else {
        len - 1
    }
}

/// Scroll after jumping: recentered on the cursor's row (half a viewport
/// above it, clamped at zero) when that row lies outside the viewport.
pub open spec fn navigate_scroll(index: int, scroll: int, bpr: int, len: int, lines: int) -> int {
    let nr = row_of(navigate_cursor(index, len), bpr);
    if nr < scroll || nr >= scroll + lines {
        if nr - lines / 2 >= 0 {
            nr - lines / 2
        } else {
            0
        }
    } else {
        scroll
    }
}

/// Scroll clamped to the last position from which a full viewport of
/// content (or all of it) is visible.
pub open spec fn clamp_scroll_spec(scroll: int, total_rows: int, visible: int) -> int {
    let limit = if total_rows - visible >= 0 {
        total_rows - visible
    } else {
        0
    };
    if scroll <= limit {
        scroll
    } else {
        limit
    }
}

/// The viewport invariant: the cursor's row is visible, and the scroll does
/// not exceed `total_rows - lines` whenever that quantity is non-negative.
pub open spec fn viewport_ok(cursor: int, scroll: int, bpr: int, len: int, lines: int) -> bool {
    &&& scroll <= row_of(cursor, bpr) < scroll + lines
    &&& (spec_total_rows(len, bpr) >= lines ==> scroll <= spec_total_rows(len, bpr) - lines)
}

/// How many rows the whole diff list occupies with `bpr` entries per row.
pub fn total_rows(len: usize, bpr: usize) -> (r: usize)
    requires
        bpr >= 1,
    ensures
        r as int == spec_total_rows(len as int, bpr as int),
{
    if len == 0 {
        0
    } else {
        proof {
            lemma_div_nonincreasing(len - 1, bpr as int);
            lemma_div_pos_is_pos(len - 1, bpr as int);
        }
        (len - 1) / bpr + 1
    }
}

/// A position inside the diff list sits in a row before `total_rows`.
proof fn lemma_row_in_range(cursor: int, bpr: int, len: int)
    requires
        bpr >= 1,
        0 <= cursor < len,
    ensures
        0 <= row_of(cursor, bpr) <= spec_total_rows(len, bpr) - 1,
{
    lemma_div_pos_is_pos(cursor, bpr);
    lemma_div_is_ordered(cursor, len - 1, bpr);
}

/// Moving down keeps the cursor's row inside the viewport and the scroll
/// within bounds.
pub proof fn lemma_move_down_viewport(cursor: int, scroll: int, bpr: int, len: int, lines: int)
    requires
        bpr >= 1,
        lines >= 1,
        1 <= len,
        0 <= cursor < len,
        0 <= scroll,
        viewport_ok(cursor, scroll, bpr, len, lines),
    ensures
        viewport_ok(
            down_cursor(cursor, bpr, len),
            down_scroll(cursor, scroll, bpr, len, lines),
            bpr,
            len,
            lines,
        ),
{
    let nc = down_cursor(cursor, bpr, len);
    let nr = row_of(nc, bpr);
    let or = row_of(cursor, bpr);
    lemma_row_in_range(cursor, bpr, len);
    lemma_row_in_range(nc, bpr, len);
    lemma_div_is_ordered(cursor, nc, bpr);
    lemma_div_is_ordered(nc, cursor + bpr, bpr);
    lemma_div_plus_one(cursor, bpr);
    assert(or <= nr <= or + 1);
    if nr >= scroll + lines {
        assert(nr == scroll + lines);
        assert(scroll + lines <= spec_total_rows(len, bpr) - 1);
    }
}

/// Moving up keeps the cursor's row inside the viewport and the scroll
/// within bounds.
pub proof fn lemma_move_up_viewport(cursor: int, scroll: int, bpr: int, len: int, lines: int)
    requires
        bpr >= 1,
        lines >= 1,
        1 <= len,
        0 <= cursor < len,
        0 <= scroll,
        viewport_ok(cursor, scroll, bpr, len, lines),
    ensures
        viewport_ok(
            up_cursor(cursor, bpr),
            up_scroll(cursor, scroll, bpr),
            bpr,
            len,
            lines,
        ),
{
    let nc = up_cursor(cursor, bpr);
    let nr = row_of(nc, bpr);
    let or = row_of(cursor, bpr);
    lemma_row_in_range(cursor, bpr, len);
    lemma_div_pos_is_pos(nc, bpr);
    if cursor >= bpr {
        lemma_div_minus_one(cursor, bpr);
        assert(nr == or - 1);
    } else {
        lemma_basic_div(cursor, bpr);
        lemma_basic_div(nc, bpr);
        assert(nr == or);
    }
}

/// Moving right keeps the cursor's row inside the viewport and the scroll
/// within bounds.
pub proof fn lemma_move_right_viewport(cursor: int, scroll: int, bpr: int, len: int, lines: int)
    requires
        bpr >= 1,
        lines >= 1,
        1 <= len,
        0 <= cursor < len,
        0 <= scroll,
        viewport_ok(cursor, scroll, bpr, len, lines),
    ensures
        viewport_ok(
            right_cursor(cursor, len),
            right_scroll(cursor, scroll, bpr, len, lines),
            bpr,
            len,
            lines,
        ),
{
    let nc = right_cursor(cursor, len);
    let nr = row_of(nc, bpr);
    let or = row_of(cursor, bpr);
    lemma_row_in_range(cursor, bpr, len);
    lemma_row_in_range(nc, bpr, len);
    lemma_div_is_ordered(cursor, nc, bpr);
    lemma_div_is_ordered(nc, cursor + bpr, bpr);
    lemma_div_plus_one(cursor, bpr);
    assert(or <= nr <= or + 1);
}

/// Moving left keeps the cursor's row inside the viewport and the scroll
/// within bounds.
pub proof fn lemma_move_left_viewport(cursor: int, scroll: int, bpr: int, len: int, lines: int)
    requires
        bpr >= 1,
        lines >= 1,
        1 <= len,
        0 <= cursor < len,
        0 <= scroll,
        viewport_ok(cursor, scroll, bpr, len, lines),
    ensures
        viewport_ok(
            left_cursor(cursor),
            left_scroll(cursor, scroll, bpr),
            bpr,
            len,
            lines,
        ),
{
    let nc = left_cursor(cursor);
    let nr = row_of(nc, bpr);
    let or = row_of(cursor, bpr);
    lemma_row_in_range(cursor, bpr, len);
    lemma_div_pos_is_pos(nc, bpr);
    lemma_div_is_ordered(nc, cursor, bpr);
    assert(nr <= or);
}

/// Jumping to an index always lands the cursor's row inside the viewport
/// (the scroll bound is re-established by the next frame's clamping).
pub proof fn lemma_navigate_visible(index: int, scroll: int, bpr: int, len: int, lines: int)
    requires
        bpr >= 1,
        lines >= 1,
        1 <= len,
        0 <= index,
        0 <= scroll,
    ensures
        ({
            let nc = navigate_cursor(index, len);
            let ns = navigate_scroll(index, scroll, bpr, len, lines);
            ns <= row_of(nc, bpr) < ns + lines
        }),
{
    let nc = navigate_cursor(index, len);
    let nr = row_of(nc, bpr);
    lemma_row_in_range(nc, bpr, len);
    lemma_div_nonincreasing(lines, 2);
    lemma_div_pos_is_pos(lines, 2);
    assert(lines / 2 < lines);
}

/// Clamping the scroll after any resize leaves it at or before the last
/// position that shows a full viewport, never past the last valid row, and
/// never increases it.
pub proof fn lemma_clamp_scroll_safe(scroll: int, total_rows: int, visible: int)
    requires
        visible >= 1,
    ensures
        clamp_scroll_spec(scroll, total_rows, visible) <= if total_rows - visible >= 0 {
            total_rows - visible
        } else {
            0
        },
        scroll >= 0 ==> clamp_scroll_spec(scroll, total_rows, visible) <= scroll,
        total_rows >= 1 ==> clamp_scroll_spec(scroll, total_rows, visible) < total_rows,
{
}

} // verus!
