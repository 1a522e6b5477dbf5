//! The two-pane scroll state for the pre-rendered hex/ASCII text view.

use vstd::prelude::*;

verus! {

/// Which way the panes scroll.
pub enum ScrollDirection {
    Up,
    Down,
}

/// Pre-rendered hex and ASCII text with one scroll position per pane.
pub struct TerminalApp {
    pub hex_diff: String,
    pub ascii_diff: String,
    pub hex_scroll: usize,
    pub ascii_scroll: usize,
}

impl TerminalApp {
    /// A fresh view over the two rendered texts, both panes at the top.
    pub fn new(hex_diff: String, ascii_diff: String) -> (s: TerminalApp)
        ensures
            s.hex_diff == hex_diff,
            s.ascii_diff == ascii_diff,
            s.hex_scroll == 0,
            s.ascii_scroll == 0,
    {
        TerminalApp { hex_diff, ascii_diff, hex_scroll: 0, ascii_scroll: 0 }
    }

    /// Scroll both panes one line, saturating at the top and at the largest
    /// representable position.
    pub fn update_scroll(&mut self, direction: ScrollDirection)
        ensures
            final(self).hex_diff == old(self).hex_diff,
            final(self).ascii_diff == old(self).ascii_diff,
            match direction {
                ScrollDirection::Up => {
                    &&& final(self).hex_scroll == (if old(self).hex_scroll > 0 {
                        old(self).hex_scroll - 1
                    } else {
                        0int
                    })
                    &&& final(self).ascii_scroll == (if old(self).ascii_scroll > 0 {
                        old(self).ascii_scroll - 1
                    } else {
                        0int
                    })
                },
                ScrollDirection::Down => {
                    &&& final(self).hex_scroll == (if old(self).hex_scroll < usize::MAX {
                        old(self).hex_scroll + 1
                    } else {
                        usize::MAX as int
                    })
                    &&& final(self).ascii_scroll == (if old(self).ascii_scroll < usize::MAX {
                        old(self).ascii_scroll + 1
                    } else {
                        usize::MAX as int
                    })
                },
            },
    {
        match direction {
            ScrollDirection::Up => {
                self.hex_scroll = if self.hex_scroll > 0 {
                    self.hex_scroll - 1
                } else {
                    0
                };
                self.ascii_scroll = if self.ascii_scroll > 0 {
                    self.ascii_scroll - 1
                } else {
                    0
                };
            },
            ScrollDirection::Down => {
                self.hex_scroll = if self.hex_scroll < usize::MAX {
                    self.hex_scroll + 1
                } else {
                    usize::MAX
                };
                self.ascii_scroll = if self.ascii_scroll < usize::MAX {
                    self.ascii_scroll + 1
                } else {
                    usize::MAX
                };
            },
        }
    }
}

} // verus!
