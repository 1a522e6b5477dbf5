//! The session: the one long-lived state object owning the diff list, the
//! navigation/viewport state, the search state, the optional selection and
//! the transient flash message, together with every command it reacts to.

use vstd::prelude::*;
use vstd::string::*;

use crate::clipboard::{
    format_ascii, format_ascii_chars, format_hex, format_hex_chars, Selection,
};
use crate::diff::diff_bytes;
use crate::nav::{
    clamp_scroll_spec, down_cursor, down_scroll, left_cursor, left_scroll,
    lemma_move_down_viewport, lemma_move_left_viewport, lemma_move_right_viewport,
    lemma_move_up_viewport, lemma_navigate_visible, navigate_cursor, navigate_scroll,
    right_cursor, right_scroll, row_of, spec_visible_rows, total_rows, up_cursor, up_scroll,
    viewport_ok,
};
use crate::search::{spec_find_matches, SearchKind, SearchMode, SearchState};
use crate::text::{
    chars_of_ascii, push_decimal_digits, spec_decimal_digits, string_from_ascii,
    string_pop_char, string_push_char,
};

verus! {

/// A transient status message shown for a fixed number of ticks.
#[derive(Debug, Clone)]
pub struct Flash {
    pub message: String,
    pub ticks_remaining: u8,
}

/// How many ticks a fresh flash message stays visible.
pub const FLASH_TICKS: u8 = 3;

/// The terminal dimensions the renderer reports.
#[derive(Debug, Clone, Copy)]
pub struct TerminalSize {
    pub width: u16,
    pub height: u16,
}

/// A key press, reduced to what the session reacts to.
#[derive(Debug, Clone, Copy, PartialEq, Eq, Structural)]
pub enum Key {
    Up,
    Down,
    Left,
    Right,
    Char(char),
    Other,
}

/// The session state.
pub struct App {
    pub running: bool,
    pub file1_data: Vec<u8>,
    pub file2_data: Vec<u8>,
    pub diffs: Vec<(usize, u8)>,
    pub cursor_pos: usize,
    pub scroll: usize,
    pub bytes_per_line: usize,
    pub search: SearchState,
    pub selection: Option<Selection>,
    pub flash: Option<Flash>,
}

/// A selection with its moving endpoint placed on the new cursor; an absent
/// selection stays absent.
pub open spec fn spec_track(sel: Option<Selection>, nc: usize) -> Option<Selection> {
    match sel {
        None => None,
        Some(s) => Some(Selection { anchor: s.anchor, cursor: nc }),
    }
}

/// The flash after one tick: counted down, gone on reaching zero.
pub open spec fn spec_tick_flash(flash: Option<Flash>) -> Option<Flash> {
    match flash {
        None => None,
        Some(f) => if f.ticks_remaining <= 1 {
            None
        } else {
            Some(Flash { message: f.message, ticks_remaining: (f.ticks_remaining - 1) as u8 })
        },
    }
}

/// The human-readable byte-count message a successful copy installs.
pub open spec fn spec_copied_message(n: int) -> Seq<char> {
    "Copied "@ + chars_of_ascii(spec_decimal_digits(n)) + " bytes"@
}

impl App {
    /// The cursor points at a diff entry whenever there is one.
    pub open spec fn cursor_in_range(self) -> bool {
        self.diffs@.len() == 0 || self.cursor_pos < self.diffs@.len()
    }

    /// Navigation arithmetic is defined: there is content and a row width.
    pub open spec fn nav_enabled(self) -> bool {
        self.diffs@.len() > 0 && self.bytes_per_line > 0
    }

    /// The session after a move-down command.
    pub open spec fn spec_move_down(s: App, height: u16) -> App {
        if !s.nav_enabled() {
            s
        } else {
            let nc = down_cursor(
                s.cursor_pos as int,
                s.bytes_per_line as int,
                s.diffs@.len() as int,
            ) as usize;
            let ns = down_scroll(
                s.cursor_pos as int,
                s.scroll as int,
                s.bytes_per_line as int,
                s.diffs@.len() as int,
                spec_visible_rows(height),
            ) as usize;
            App { cursor_pos: nc, scroll: ns, selection: spec_track(s.selection, nc), ..s }
        }
    }

    /// The session after a move-up command.
    pub open spec fn spec_move_up(s: App) -> App {
        if !s.nav_enabled() {
            s
        } else {
            let nc = up_cursor(s.cursor_pos as int, s.bytes_per_line as int) as usize;
            let ns = up_scroll(
                s.cursor_pos as int,
                s.scroll as int,
                s.bytes_per_line as int,
            ) as usize;
            App { cursor_pos: nc, scroll: ns, selection: spec_track(s.selection, nc), ..s }
        }
    }

    /// The session after a move-right command.
    pub open spec fn spec_move_right(s: App, height: u16) -> App {
        if !s.nav_enabled() {
            s
        } else {
            let nc = right_cursor(s.cursor_pos as int, s.diffs@.len() as int) as usize;
            let ns = right_scroll(
                s.cursor_pos as int,
                s.scroll as int,
                s.bytes_per_line as int,
                s.diffs@.len() as int,
                spec_visible_rows(height),
            ) as usize;
            App { cursor_pos: nc, scroll: ns, selection: spec_track(s.selection, nc), ..s }
        }
    }

    /// The session after a move-left command.
    pub open spec fn spec_move_left(s: App) -> App {
        if !s.nav_enabled() {
            s
        } else {
            let nc = left_cursor(s.cursor_pos as int) as usize;
            let ns = left_scroll(
                s.cursor_pos as int,
                s.scroll as int,
                s.bytes_per_line as int,
            ) as usize;
            App { cursor_pos: nc, scroll: ns, selection: spec_track(s.selection, nc), ..s }
        }
    }

    /// The session after jumping to a diff-list index.
    pub open spec fn spec_navigate_to(s: App, index: usize, height: u16) -> App {
        if !s.nav_enabled() {
            s
        } else {
            let nc = navigate_cursor(index as int, s.diffs@.len() as int) as usize;
            let ns = navigate_scroll(
                index as int,
                s.scroll as int,
                s.bytes_per_line as int,
                s.diffs@.len() as int,
                spec_visible_rows(height),
            ) as usize;
            App { cursor_pos: nc, scroll: ns, selection: spec_track(s.selection, nc), ..s }
        }
    }

    /// The session after jumping to the current search match, if there is
    /// one.
    pub open spec fn spec_after_match_nav(s: App, height: u16) -> App {
        match s.search.spec_current_match_pos() {
            None => s,
            Some(pos) => Self::spec_navigate_to(s, pos, height),
        }
    }

    /// A fresh session over the two buffers and their precomputed diff list:
    /// running, cursor and scroll at the origin, no row width reported yet,
    /// idle search, no selection, no flash.
    pub fn new(file1_data: Vec<u8>, file2_data: Vec<u8>, diffs: Vec<(usize, u8)>) -> (s: Self)
        ensures
            s.running == true,
            s.file1_data == file1_data,
            s.file2_data == file2_data,
            s.diffs == diffs,
            s.cursor_pos == 0,
            s.scroll == 0,
            s.bytes_per_line == 0,
            s.search.mode == SearchMode::Normal,
            s.search.query@ == Seq::<char>::empty(),
            s.search.kind == SearchKind::Hex,
            s.search.matches@ == Seq::<usize>::empty(),
            (s.search.current_match is None),
            s.search.wf(),
            (s.selection is None),
            (s.flash is None),
            s.cursor_in_range(),
    {
        Self {
            running: true,
            file1_data,
            file2_data,
            diffs,
            cursor_pos: 0,
            scroll: 0,
            bytes_per_line: 0,
            search: SearchState::default(),
            selection: None,
            flash: None,
        }
    }

    /// One periodic tick: counts the flash message down and removes it when
    /// it reaches zero; nothing else changes.
    pub fn tick(&mut self)
        ensures
            final(self).flash == spec_tick_flash(old(self).flash),
            *final(self) == (App { flash: final(self).flash, ..*old(self) }),
    {
        self.flash = match self.flash.take() {
            None => None,
            Some(f) => if f.ticks_remaining <= 1 {
                None
            } else {
                Some(Flash { message: f.message, ticks_remaining: f.ticks_remaining - 1 })
            },
        };
    }

    /// Stop the session: the main loop observes this flag and exits.
    pub fn quit(&mut self)
        ensures
            *final(self) == (App { running: false, ..*old(self) }),
    {
        self.running = false;
    }

    /// Move the cursor one row down, creeping the scroll a single row when
    /// the cursor leaves the viewport and more content lies below; the
    /// selection endpoint follows.  No-op without content or a row width.
    pub fn move_cursor_down(&mut self, terminal_height: u16)
        requires
            old(self).cursor_in_range(),
        ensures
            *final(self) == App::spec_move_down(*old(self), terminal_height),
            final(self).cursor_in_range(),
    {
        if self.diffs.len() == 0 || self.bytes_per_line == 0 {
            return;
        }
        let lines: usize = if terminal_height >= 5 {
            (terminal_height - 5) as usize
        } else {
            0
        };
        let max_cursor_pos = self.diffs.len() - 1;
        if self.cursor_pos < max_cursor_pos {
            let step = max_cursor_pos - self.cursor_pos;
            if self.bytes_per_line < step {
                self.cursor_pos = self.cursor_pos + self.bytes_per_line;
            } else {
                self.cursor_pos = max_cursor_pos;
            }
        }
        let cursor_line = self.cursor_pos / self.bytes_per_line;
        let tr = total_rows(self.diffs.len(), self.bytes_per_line);
        if cursor_line >= lines && self.scroll <= cursor_line - lines && tr > lines && self.scroll
            < tr - lines {
            self.scroll = self.scroll + 1;
        }
        if let Some(sel) = self.selection {
            self.selection = Some(Selection { anchor: sel.anchor, cursor: self.cursor_pos });
        }
    }

    /// Move the cursor one row up, creeping the scroll back a single row
    /// when the cursor rises above the viewport; the selection endpoint
    /// follows.  No-op without content or a row width.
    pub fn move_cursor_up(&mut self)
        requires
            old(self).cursor_in_range(),
        ensures
            *final(self) == App::spec_move_up(*old(self)),
            final(self).cursor_in_range(),
    {
        if self.diffs.len() == 0 || self.bytes_per_line == 0 {
            return;
        }
        self.cursor_pos = if self.cursor_pos >= self.bytes_per_line {
            self.cursor_pos - self.bytes_per_line
        } else {
            0
        };
        let cursor_line = self.cursor_pos / self.bytes_per_line;
        if cursor_line < self.scroll {
            self.scroll = self.scroll - 1;
        }
        if let Some(sel) = self.selection {
            self.selection = Some(Selection { anchor: sel.anchor, cursor: self.cursor_pos });
        }
    }

    /// Move the cursor one position right; when its row wraps past the
    /// bottom of the viewport the scroll is recomputed directly; the
    /// selection endpoint follows.  No-op without content or a row width.
    pub fn move_cursor_right(&mut self, terminal_height: u16)
        requires
            old(self).cursor_in_range(),
        ensures
            *final(self) == App::spec_move_right(*old(self), terminal_height),
            final(self).cursor_in_range(),
    {
        if self.diffs.len() == 0 || self.bytes_per_line == 0 {
            return;
        }
        let lines: usize = if terminal_height >= 5 {
            (terminal_height - 5) as usize
        } else {
            0
        };
        let max_cursor_pos = self.diffs.len() - 1;
        if self.cursor_pos < max_cursor_pos {
            self.cursor_pos = self.cursor_pos + 1;
        }
        let cursor_line = self.cursor_pos / self.bytes_per_line;
        if cursor_line >= lines && self.scroll <= cursor_line - lines {
            proof {
                vstd::arithmetic::div_mod::lemma_div_nonincreasing(
                    self.cursor_pos as int,
                    self.bytes_per_line as int,
                );
            }
            self.scroll = cursor_line - lines + 1;
        }
        if let Some(sel) = self.selection {
            self.selection = Some(Selection { anchor: sel.anchor, cursor: self.cursor_pos });
        }
    }

    /// Move the cursor one position left; when its row wraps above the top
    /// of the viewport the scroll jumps to that row; the selection endpoint
    /// follows.  No-op without content or a row width.
    pub fn move_cursor_left(&mut self)
        requires
            old(self).cursor_in_range(),
        ensures
            *final(self) == App::spec_move_left(*old(self)),
            final(self).cursor_in_range(),
    {
        if self.diffs.len() == 0 || self.bytes_per_line == 0 {
            return;
        }
        if self.cursor_pos > 0 {
            self.cursor_pos = self.cursor_pos - 1;
        }
        let cursor_line = self.cursor_pos / self.bytes_per_line;
        if cursor_line < self.scroll {
            self.scroll = cursor_line;
        }
        if let Some(sel) = self.selection {
            self.selection = Some(Selection { anchor: sel.anchor, cursor: self.cursor_pos });
        }
    }

    /// Jump the cursor to a diff-list index (clamped to the last entry),
    /// recentering the scroll when the landing row is not visible; the
    /// selection endpoint follows.  No-op without content or a row width.
    pub fn navigate_to(&mut self, index: usize, terminal_height: u16)
        ensures
            *final(self) == App::spec_navigate_to(*old(self), index, terminal_height),
            (old(self).cursor_in_range() || old(self).nav_enabled())
                ==> final(self).cursor_in_range(),
    {
        if self.diffs.len() == 0 || self.bytes_per_line == 0 {
            return;
        }
        let lines: usize = if terminal_height >= 5 {
            (terminal_height - 5) as usize
        } else {
            0
        };
        let max_cursor_pos = self.diffs.len() - 1;
        self.cursor_pos = if index < max_cursor_pos {
            index
        } else {
            max_cursor_pos
        };
        let row = self.cursor_pos / self.bytes_per_line;
        if row < self.scroll || (row >= lines && self.scroll <= row - lines) {
            self.scroll = if row >= lines / 2 {
                row - lines / 2
            } else {
                0
            };
        }
        if let Some(sel) = self.selection {
            self.selection = Some(Selection { anchor: sel.anchor, cursor: self.cursor_pos });
        }
    }

    /// Clamp the scroll so it never points past the last position that can
    /// show a full viewport of content; called by the renderer each frame
    /// after recomputing the row width from the terminal width.
    pub fn clamp_scroll(&mut self, total_rows: usize, visible_rows: usize)
        ensures
            final(self).scroll as int == clamp_scroll_spec(
                old(self).scroll as int,
                total_rows as int,
                visible_rows as int,
            ),
            *final(self) == (App { scroll: final(self).scroll, ..*old(self) }),
    {
        let limit = if total_rows >= visible_rows {
            total_rows - visible_rows
        } else {
            0
        };
        if self.scroll > limit {
            self.scroll = limit;
        }
    }

    /// Enter visual mode: a fresh selection anchored at the cursor.
    pub fn start_selection(&mut self)
        ensures
            *final(self) == (App {
                selection: Some(
                    Selection { anchor: old(self).cursor_pos, cursor: old(self).cursor_pos },
                ),
                ..*old(self)
            }),
    {
        self.selection = Some(Selection::new(self.cursor_pos));
    }

    /// Leave visual mode without copying.
    pub fn cancel_selection(&mut self)
        ensures
            *final(self) == (App { selection: None, ..*old(self) }),
    {
        self.selection = None;
    }
}

/// The status message a copy of `n` bytes installs.
fn copied_message(n: usize) -> (r: String)
    ensures
        r@ == spec_copied_message(n as int),
{
    let mut digits: Vec<u8> = Vec::new();
    push_decimal_digits(n, &mut digits);
    proof {
        crate::text::lemma_decimal_digits_ascii(n as int);
    }
    let ds = string_from_ascii(digits);
    let mut msg = String::new();
    msg.append("Copied ");
    msg.append(ds.as_str());
    msg.append(" bytes");
    proof {
        assert(msg@ =~= spec_copied_message(n as int));
    }
    msg
}

impl App {
    /// The bytes a copy action would take: the selected slice of the diff
    /// list's byte values, when a selection exists and lies inside it.
    pub open spec fn spec_selected_bytes(self) -> Option<Seq<u8>> {
        match self.selection {
            None => None,
            Some(sel) => if sel.spec_end() < self.diffs@.len() {
                Some(diff_bytes(self.diffs@).subrange(sel.spec_start(), sel.spec_end() + 1))
            } else {
                None
            },
        }
    }

    /// Copy the selection as a hex string: returns the formatted text,
    /// clears the selection and installs the flash message; `None` (and no
    /// state change) without a usable selection.
    pub fn yank_as_hex(&mut self) -> (r: Option<String>)
        ensures
            match old(self).spec_selected_bytes() {
                None => r is None && *final(self) == *old(self),
                Some(bytes) => match r {
                    Some(text) => {
                        &&& text@ == format_hex_chars(bytes)
                        &&& final(self).selection is None
                        &&& match final(self).flash {
                            Some(f) => f.ticks_remaining == FLASH_TICKS && f.message@
                                == spec_copied_message(bytes.len() as int),
                            None => false,
                        }
                        &&& *final(self) == (App {
                            selection: None,
                            flash: final(self).flash,
                            ..*old(self)
                        })
                    },
                    None => false,
                },
            },
    {
        let sel = match self.selection {
            None => {
                return None;
            },
            Some(sel) => sel,
        };
        let bytes = match sel.extract_bytes(self.diffs.as_slice()) {
            None => {
                return None;
            },
            Some(bytes) => bytes,
        };
        let text = format_hex(bytes.as_slice());
        self.selection = None;
        self.flash = Some(Flash { message: copied_message(bytes.len()), ticks_remaining: FLASH_TICKS });
        Some(text)
    }

    /// Copy the selection as an ASCII string: returns the formatted text,
    /// clears the selection and installs the flash message; `None` (and no
    /// state change) without a usable selection.
    pub fn yank_as_ascii(&mut self) -> (r: Option<String>)
        ensures
            match old(self).spec_selected_bytes() {
                None => r is None && *final(self) == *old(self),
                Some(bytes) => match r {
                    Some(text) => {
                        &&& text@ == format_ascii_chars(bytes)
                        &&& final(self).selection is None
                        &&& match final(self).flash {
                            Some(f) => f.ticks_remaining == FLASH_TICKS && f.message@
                                == spec_copied_message(bytes.len() as int),
                            None => false,
                        }
                        &&& *final(self) == (App {
                            selection: None,
                            flash: final(self).flash,
                            ..*old(self)
                        })
                    },
                    None => false,
                },
            },
    {
        let sel = match self.selection {
            None => {
                return None;
            },
            Some(sel) => sel,
        };
        let bytes = match sel.extract_bytes(self.diffs.as_slice()) {
            None => {
                return None;
            },
            Some(bytes) => bytes,
        };
        let text = format_ascii(bytes.as_slice());
        self.selection = None;
        self.flash = Some(Flash { message: copied_message(bytes.len()), ticks_remaining: FLASH_TICKS });
        Some(text)
    }

    /// Enter search input mode with the given kind.
    pub fn start_search(&mut self, kind: SearchKind)
        ensures
            *final(self) == (App { search: final(self).search, ..*old(self) }),
            final(self).search.mode == SearchMode::Input(kind),
            final(self).search.kind == kind,
            final(self).search.query@ == Seq::<char>::empty(),
            final(self).search.matches@ == Seq::<usize>::empty(),
            (final(self).search.current_match is None),
            final(self).search.wf(),
    {
        self.search.start(kind);
    }

    /// Abort the search.
    pub fn cancel_search(&mut self)
        ensures
            *final(self) == (App { search: final(self).search, ..*old(self) }),
            final(self).search.mode == SearchMode::Normal,
            final(self).search.query@ == Seq::<char>::empty(),
            final(self).search.matches@ == Seq::<usize>::empty(),
            (final(self).search.current_match is None),
            final(self).search.wf(),
    {
        self.search.cancel();
    }

    /// Append one typed character to the search query.
    pub fn push_search_char(&mut self, c: char)
        ensures
            final(self).search.query@ == old(self).search.query@.push(c),
            final(self).search == (SearchState {
                query: final(self).search.query,
                ..old(self).search
            }),
            *final(self) == (App { search: final(self).search, ..*old(self) }),
    {
        string_push_char(&mut self.search.query, c);
    }

    /// Erase the last typed character of the search query, if any.
    pub fn pop_search_char(&mut self)
        ensures
            final(self).search.query@ == (if old(self).search.query@.len() > 0 {
                old(self).search.query@.drop_last()
            } else {
                old(self).search.query@
            }),
            final(self).search == (SearchState {
                query: final(self).search.query,
                ..old(self).search
            }),
            *final(self) == (App { search: final(self).search, ..*old(self) }),
    {
        string_pop_char(&mut self.search.query);
    }

    /// Toggle between hex and ASCII search while entering a query.
    pub fn toggle_search_kind(&mut self)
        ensures
            final(self).search.kind == (match old(self).search.kind {
                SearchKind::Hex => SearchKind::Ascii,
                SearchKind::Ascii => SearchKind::Hex,
            }),
            final(self).search.mode == SearchMode::Input(final(self).search.kind),
            final(self).search.query == old(self).search.query,
            final(self).search.matches == old(self).search.matches,
            final(self).search.current_match == old(self).search.current_match,
            *final(self) == (App { search: final(self).search, ..*old(self) }),
            old(self).search.wf() ==> final(self).search.wf(),
    {
        self.search.toggle_kind();
    }

    /// Run the query against the diff bytes and jump to the first match, if
    /// any.
    pub fn submit_search(&mut self, terminal_height: u16)
        requires
            old(self).cursor_in_range(),
        ensures
            final(self).search.mode == SearchMode::Normal,
            final(self).search.query == old(self).search.query,
            final(self).search.kind == old(self).search.kind,
            final(self).search.matches@ == spec_find_matches(
                diff_bytes(old(self).diffs@),
                old(self).search.spec_pattern(),
            ),
            final(self).search.current_match == (if final(self).search.matches@.len() == 0 {
                None::<usize>
            } else {
                Some(0usize)
            }),
            final(self).search.wf(),
            *final(self) == App::spec_after_match_nav(
                App { search: final(self).search, ..*old(self) },
                terminal_height,
            ),
            final(self).cursor_in_range(),
    {
        self.search.submit(self.diffs.as_slice());
        if let Some(pos) = self.search.current_match_pos() {
            self.navigate_to(pos, terminal_height);
        }
    }

    /// Advance to the next match (wrapping) and jump to it, if any.
    pub fn next_match(&mut self, terminal_height: u16)
        requires
            old(self).cursor_in_range(),
        ensures
            final(self).search.matches == old(self).search.matches,
            final(self).search.mode == old(self).search.mode,
            final(self).search.query == old(self).search.query,
            final(self).search.kind == old(self).search.kind,
            final(self).search.current_match == (match old(self).search.current_match {
                Some(idx) => if old(self).search.matches@.len() == 0 {
                    Some(idx)
                } else {
                    let r = (idx as int) % (old(self).search.matches@.len() as int);
                    if r + 1 < old(self).search.matches@.len() {
                        Some((r + 1) as usize)
                    } else {
                        Some(0usize)
                    }
                },
                None => None::<usize>,
            }),
            old(self).search.wf() ==> final(self).search.wf(),
            *final(self) == App::spec_after_match_nav(
                App { search: final(self).search, ..*old(self) },
                terminal_height,
            ),
            final(self).cursor_in_range(),
    {
        self.search.next_match();
        if let Some(pos) = self.search.current_match_pos() {
            self.navigate_to(pos, terminal_height);
        }
    }

    /// Retreat to the previous match (wrapping) and jump to it, if any.
    pub fn prev_match(&mut self, terminal_height: u16)
        requires
            old(self).cursor_in_range(),
        ensures
            final(self).search.matches == old(self).search.matches,
            final(self).search.mode == old(self).search.mode,
            final(self).search.query == old(self).search.query,
            final(self).search.kind == old(self).search.kind,
            final(self).search.current_match == (match old(self).search.current_match {
                Some(idx) => if idx > 0 {
                    Some((idx - 1) as usize)
                } else if old(self).search.matches@.len() > 0 {
                    Some((old(self).search.matches@.len() - 1) as usize)
                } else {
                    Some(idx)
                },
                None => None::<usize>,
            }),
            old(self).search.wf() ==> final(self).search.wf(),
            *final(self) == App::spec_after_match_nav(
                App { search: final(self).search, ..*old(self) },
                terminal_height,
            ),
            final(self).cursor_in_range(),
    {
        self.search.prev_match();
        if let Some(pos) = self.search.current_match_pos() {
            self.navigate_to(pos, terminal_height);
        }
    }
}

/// The session a key press leads to: arrows and `j`/`k`/`l`/`h` move,
/// `q` quits, everything else is an explicit no-op.
pub open spec fn spec_handle_key(key: Key, s: App, height: u16) -> App {
    match key {
        Key::Down => App::spec_move_down(s, height),
        Key::Up => App::spec_move_up(s),
        Key::Right => App::spec_move_right(s, height),
        Key::Left => App::spec_move_left(s),
        Key::Char(c) => if c == 'q' {
            App { running: false, ..s }
        } else if c == 'j' {
            App::spec_move_down(s, height)
        } else if c == 'k' {
            App::spec_move_up(s)
        } else if c == 'l' {
            App::spec_move_right(s, height)
        } else if c == 'h' {
            App::spec_move_left(s)
        } else {
            s
        },
        Key::Other => s,
    }
}

/// Dispatch one key press to the session.
pub fn handle_key_events(key: Key, app: &mut App, size: TerminalSize)
    requires
        old(app).cursor_in_range(),
    ensures
        *final(app) == spec_handle_key(key, *old(app), size.height),
        final(app).cursor_in_range(),
{
    match key {
        Key::Down => app.move_cursor_down(size.height),
        Key::Up => app.move_cursor_up(),
        Key::Right => app.move_cursor_right(size.height),
        Key::Left => app.move_cursor_left(),
        Key::Char(c) => {
            if c == 'q' {
                app.quit();
            } else if c == 'j' {
                app.move_cursor_down(size.height);
            } else if c == 'k' {
                app.move_cursor_up();
            } else if c == 'l' {
                app.move_cursor_right(size.height);
            } else if c == 'h' {
                app.move_cursor_left();
            }
        },
        Key::Other => {
        },
    }
}

impl App {
    /// The session-level viewport invariant: the cursor's row is visible and
    /// the scroll does not run past the content, for the visible-row count a
    /// given terminal height yields.
    pub open spec fn viewport_inv(self, height: u16) -> bool {
        viewport_ok(
            self.cursor_pos as int,
            self.scroll as int,
            self.bytes_per_line as int,
            self.diffs@.len() as int,
            spec_visible_rows(height),
        )
    }
}

/// Every movement command keeps the viewport invariant: after any of the
/// four moves the cursor's row is still visible and the scroll still does
/// not run past the content.  Applied after each command of a sequence, this
/// carries the invariant through the whole sequence.
pub proof fn lemma_session_moves_keep_viewport(s: App, height: u16)
    requires
        s.nav_enabled(),
        s.cursor_in_range(),
        spec_visible_rows(height) >= 1,
        s.viewport_inv(height),
    ensures
        App::spec_move_down(s, height).viewport_inv(height),
        App::spec_move_up(s).viewport_inv(height),
        App::spec_move_right(s, height).viewport_inv(height),
        App::spec_move_left(s).viewport_inv(height),
{
    broadcast use vstd::std_specs::vec::group_vec_axioms;

    let len = s.diffs@.len() as int;
    let bpr = s.bytes_per_line as int;
    let cur = s.cursor_pos as int;
    let scr = s.scroll as int;
    let lines = spec_visible_rows(height);
    assert(vstd::std_specs::vec::spec_vec_len(&s.diffs) == s.diffs@.len());
    lemma_move_down_viewport(cur, scr, bpr, len, lines);
    lemma_move_up_viewport(cur, scr, bpr, len, lines);
    lemma_move_right_viewport(cur, scr, bpr, len, lines);
    lemma_move_left_viewport(cur, scr, bpr, len, lines);
    lemma_cast_round_trip(down_cursor(cur, bpr, len), down_scroll(cur, scr, bpr, len, lines), bpr, len);
    lemma_cast_round_trip(up_cursor(cur, bpr), up_scroll(cur, scr, bpr), bpr, len);
    lemma_cast_round_trip(right_cursor(cur, len), right_scroll(cur, scr, bpr, len, lines), bpr, len);
    lemma_cast_round_trip(left_cursor(cur), left_scroll(cur, scr, bpr), bpr, len);
}

/// A cursor inside the diff list and a scroll at or before its row both fit
/// in `usize`, so casting them there and back changes nothing.
proof fn lemma_cast_round_trip(nc: int, ns: int, bpr: int, len: int)
    requires
        bpr >= 1,
        0 <= nc < len,
        len <= usize::MAX,
        0 <= ns <= nc / bpr,
    ensures
        (nc as usize) as int == nc,
        (ns as usize) as int == ns,
{
    vstd::arithmetic::div_mod::lemma_div_pos_is_pos(nc, bpr);
    vstd::arithmetic::div_mod::lemma_div_nonincreasing(nc, bpr);
}

/// Jumping to a search match always lands the cursor's row inside the
/// viewport, wherever the scroll stood before (the scroll bound against the
/// end of content is re-established by the next frame's clamping).
pub proof fn lemma_session_navigate_lands_visible(s: App, index: usize, height: u16)
    requires
        s.nav_enabled(),
        spec_visible_rows(height) >= 1,
    ensures
        ({
            let t = App::spec_navigate_to(s, index, height);
            t.scroll as int <= row_of(t.cursor_pos as int, t.bytes_per_line as int) < t.scroll
                + spec_visible_rows(height)
        }),
{
    broadcast use vstd::std_specs::vec::group_vec_axioms;

    let len = s.diffs@.len() as int;
    let bpr = s.bytes_per_line as int;
    let lines = spec_visible_rows(height);
    assert(vstd::std_specs::vec::spec_vec_len(&s.diffs) == s.diffs@.len());
    lemma_navigate_visible(index as int, s.scroll as int, bpr, len, lines);
    lemma_cast_round_trip(
        navigate_cursor(index as int, len),
        navigate_scroll(index as int, s.scroll as int, bpr, len, lines),
        bpr,
        len,
    );
}

} // verus!
