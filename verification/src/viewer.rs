//! A self-contained viewer over a diff list: the same navigation and
//! viewport rules as the session, without search, selection or flash state.

use vstd::prelude::*;

use crate::nav::{
    down_cursor, down_scroll, left_cursor, left_scroll, lemma_move_down_viewport,
    lemma_move_left_viewport, lemma_move_right_viewport, lemma_move_up_viewport, right_cursor,
    right_scroll, spec_visible_rows, total_rows, up_cursor, up_scroll, viewport_ok,
};
use vstd::arithmetic::div_mod::{lemma_div_nonincreasing, lemma_div_pos_is_pos};

verus! {

/// Viewer state: the diff list with a cursor, a scroll row and the row
/// width the renderer last reported.
pub struct FileDiffViewer {
    pub diffs: Vec<(usize, u8)>,
    pub cursor_pos: usize,
    pub scroll: usize,
    pub bytes_per_line: usize,
}

impl FileDiffViewer {
    /// The cursor points at a diff entry whenever there is one.
    pub open spec fn cursor_in_range(self) -> bool {
        self.diffs@.len() == 0 || self.cursor_pos < self.diffs@.len()
    }

    /// Navigation arithmetic is defined: there is content and a row width.
    pub open spec fn nav_enabled(self) -> bool {
        self.diffs@.len() > 0 && self.bytes_per_line > 0
    }

    /// The viewer after a move-down command.
    pub open spec fn spec_move_down(s: FileDiffViewer, height: u16) -> FileDiffViewer {
        if !s.nav_enabled() {
            s
        } else {
            FileDiffViewer {
                cursor_pos: down_cursor(
                    s.cursor_pos as int,
                    s.bytes_per_line as int,
                    s.diffs@.len() as int,
                ) as usize,
                scroll: down_scroll(
                    s.cursor_pos as int,
                    s.scroll as int,
                    s.bytes_per_line as int,
                    s.diffs@.len() as int,
                    spec_visible_rows(height),
                ) as usize,
                ..s
            }
        }
    }

    /// The viewer after a move-up command.
    pub open spec fn spec_move_up(s: FileDiffViewer) -> FileDiffViewer {
        if !s.nav_enabled() {
            s
        } else {
            FileDiffViewer {
                cursor_pos: up_cursor(s.cursor_pos as int, s.bytes_per_line as int) as usize,
                scroll: up_scroll(
                    s.cursor_pos as int,
                    s.scroll as int,
                    s.bytes_per_line as int,
                ) as usize,
                ..s
            }
        }
    }

    /// The viewer after a move-right command.
    pub open spec fn spec_move_right(s: FileDiffViewer, height: u16) -> FileDiffViewer {
        if !s.nav_enabled() {
            s
        } else {
            FileDiffViewer {
                cursor_pos: right_cursor(s.cursor_pos as int, s.diffs@.len() as int) as usize,
                scroll: right_scroll(
                    s.cursor_pos as int,
                    s.scroll as int,
                    s.bytes_per_line as int,
                    s.diffs@.len() as int,
                    spec_visible_rows(height),
                ) as usize,
                ..s
            }
        }
    }

    /// The viewer after a move-left command.
    pub open spec fn spec_move_left(s: FileDiffViewer) -> FileDiffViewer {
        if !s.nav_enabled() {
            s
        } else {
            FileDiffViewer {
                cursor_pos: left_cursor(s.cursor_pos as int) as usize,
                scroll: left_scroll(
                    s.cursor_pos as int,
                    s.scroll as int,
                    s.bytes_per_line as int,
                ) as usize,
                ..s
            }
        }
    }

    /// A fresh viewer over a diff list: cursor and scroll at the origin, no
    /// row width reported yet.
    pub fn new(diffs: Vec<(usize, u8)>) -> (s: Self)
        ensures
            s.diffs == diffs,
            s.cursor_pos == 0,
            s.scroll == 0,
            s.bytes_per_line == 0,
            s.cursor_in_range(),
    {
        Self { diffs, cursor_pos: 0, scroll: 0, bytes_per_line: 0 }
    }

    /// Move the cursor one row down, creeping the scroll a single row when
    /// the cursor leaves the viewport and more content lies below.  No-op
    /// without content or a row width.
    pub fn move_cursor_down(&mut self, terminal_height: u16)
        requires
            old(self).cursor_in_range(),
        ensures
            *final(self) == Self::spec_move_down(*old(self), terminal_height),
            final(self).cursor_in_range(),
    {
        if self.diffs.len() == 0 || self.bytes_per_line == 0 {
            return;
        }
        let lines: usize = if terminal_height >= 5 {
            (terminal_height - 5) as usize
        } else {
            0
        };
        let max_cursor_pos = self.diffs.len() - 1;
        if self.cursor_pos < max_cursor_pos {
            let step = max_cursor_pos - self.cursor_pos;
            if self.bytes_per_line < step {
                self.cursor_pos = self.cursor_pos + self.bytes_per_line;
            } else {
                self.cursor_pos = max_cursor_pos;
            }
        }
        let cursor_line = self.cursor_pos / self.bytes_per_line;
        let tr = total_rows(self.diffs.len(), self.bytes_per_line);
        if cursor_line >= lines && self.scroll <= cursor_line - lines && tr > lines && self.scroll
            < tr - lines {
            self.scroll = self.scroll + 1;
        }
    }

    /// Move the cursor one row up, creeping the scroll back a single row
    /// when the cursor rises above the viewport.  No-op without content or
    /// a row width.
    pub fn move_cursor_up(&mut self)
        requires
            old(self).cursor_in_range(),
        ensures
            *final(self) == Self::spec_move_up(*old(self)),
            final(self).cursor_in_range(),
    {
        if self.diffs.len() == 0 || self.bytes_per_line == 0 {
            return;
        }
        self.cursor_pos = if self.cursor_pos >= self.bytes_per_line {
            self.cursor_pos - self.bytes_per_line
        } else {
            0
        };
        let cursor_line = self.cursor_pos / self.bytes_per_line;
        if cursor_line < self.scroll {
            self.scroll = self.scroll - 1;
        }
    }

    /// Move the cursor one position right; when its row wraps past the
    /// bottom of the viewport the scroll is recomputed directly.  No-op
    /// without content or a row width.
    pub fn move_cursor_right(&mut self, terminal_height: u16)
        requires
            old(self).cursor_in_range(),
        ensures
            *final(self) == Self::spec_move_right(*old(self), terminal_height),
            final(self).cursor_in_range(),
    {
        if self.diffs.len() == 0 || self.bytes_per_line == 0 {
            return;
        }
        let lines: usize = if terminal_height >= 5 {
            (terminal_height - 5) as usize
        } else {
            0
        };
        let max_cursor_pos = self.diffs.len() - 1;
        if self.cursor_pos < max_cursor_pos {
            self.cursor_pos = self.cursor_pos + 1;
        }
        let cursor_line = self.cursor_pos / self.bytes_per_line;
        if cursor_line >= lines && self.scroll <= cursor_line - lines {
            proof {
                vstd::arithmetic::div_mod::lemma_div_nonincreasing(
                    self.cursor_pos as int,
                    self.bytes_per_line as int,
                );
            }
            self.scroll = cursor_line - lines + 1;
        }
    }

    /// Move the cursor one position left; when its row wraps above the top
    /// of the viewport the scroll jumps to that row.  No-op without content
    /// or a row width.
    pub fn move_cursor_left(&mut self)
        requires
            old(self).cursor_in_range(),
        ensures
            *final(self) == Self::spec_move_left(*old(self)),
            final(self).cursor_in_range(),
    {
        if self.diffs.len() == 0 || self.bytes_per_line == 0 {
            return;
        }
        if self.cursor_pos > 0 {
            self.cursor_pos = self.cursor_pos - 1;
        }
        let cursor_line = self.cursor_pos / self.bytes_per_line;
        if cursor_line < self.scroll {
            self.scroll = cursor_line;
        }
    }
}

/// What a byte is for display purposes: the renderer picks a colour per
/// class.
#[derive(Debug, Clone, Copy, PartialEq, Eq, Structural)]
pub enum ByteClass {
    Null,
    Graphic,
    OtherAscii,
    NonAscii,
}

/// The display class of a byte: zero, ASCII graphic, other ASCII
/// (whitespace and control), or beyond ASCII.
pub open spec fn spec_classify_byte(b: u8) -> ByteClass {
    if b == 0 {
        ByteClass::Null
    } else if 0x21 <= b && b <= 0x7e {
        ByteClass::Graphic
    } else if b < 0x80 {
        ByteClass::OtherAscii
    } else {
        ByteClass::NonAscii
    }
}

/// Classify a byte for display.
pub fn classify_byte(byte: u8) -> (r: ByteClass)
    ensures
        r == spec_classify_byte(byte),
{
    if byte == 0 {
        ByteClass::Null
    } else if 0x21 <= byte && byte <= 0x7e {
        ByteClass::Graphic
    } else if byte < 0x80 {
        ByteClass::OtherAscii
    } else {
        ByteClass::NonAscii
    }
}

impl FileDiffViewer {
    /// The viewer-level viewport invariant: the cursor's row is visible and
    /// the scroll does not run past the content, for the visible-row count a
    /// given terminal height yields.
    pub open spec fn viewport_inv(self, height: u16) -> bool {
        viewport_ok(
            self.cursor_pos as int,
            self.scroll as int,
            self.bytes_per_line as int,
            self.diffs@.len() as int,
            spec_visible_rows(height),
        )
    }
}

/// Every movement command keeps the viewer's viewport invariant, so any
/// sequence of moves leaves the cursor's row visible and the scroll within
/// the content.
pub proof fn lemma_viewer_moves_keep_viewport(s: FileDiffViewer, height: u16)
    requires
        s.nav_enabled(),
        s.cursor_in_range(),
        spec_visible_rows(height) >= 1,
        s.viewport_inv(height),
    ensures
        FileDiffViewer::spec_move_down(s, height).viewport_inv(height),
        FileDiffViewer::spec_move_up(s).viewport_inv(height),
        FileDiffViewer::spec_move_right(s, height).viewport_inv(height),
        FileDiffViewer::spec_move_left(s).viewport_inv(height),
{
    broadcast use vstd::std_specs::vec::group_vec_axioms;

    let len = s.diffs@.len() as int;
    let bpr = s.bytes_per_line as int;
    let cur = s.cursor_pos as int;
    let scr = s.scroll as int;
    let lines = spec_visible_rows(height);
    assert(vstd::std_specs::vec::spec_vec_len(&s.diffs) == s.diffs@.len());
    lemma_move_down_viewport(cur, scr, bpr, len, lines);
    lemma_move_up_viewport(cur, scr, bpr, len, lines);
    lemma_move_right_viewport(cur, scr, bpr, len, lines);
    lemma_move_left_viewport(cur, scr, bpr, len, lines);
    lemma_div_pos_is_pos(down_cursor(cur, bpr, len), bpr);
    lemma_div_nonincreasing(down_cursor(cur, bpr, len), bpr);
    lemma_div_pos_is_pos(up_cursor(cur, bpr), bpr);
    lemma_div_nonincreasing(up_cursor(cur, bpr), bpr);
    lemma_div_pos_is_pos(right_cursor(cur, len), bpr);
    lemma_div_nonincreasing(right_cursor(cur, len), bpr);
    lemma_div_pos_is_pos(left_cursor(cur), bpr);
    lemma_div_nonincreasing(left_cursor(cur), bpr);
}

} // verus!
