use hexdiff::app::{handle_key_events, App, Flash, Key, TerminalSize, FLASH_TICKS};
use hexdiff::clipboard::Selection;
use hexdiff::diff::diff_files;
use hexdiff::display::{ScrollDirection, TerminalApp};
use hexdiff::nav::total_rows;
use hexdiff::search::SearchKind;
use hexdiff::viewer::{classify_byte, ByteClass, FileDiffViewer};

fn sample_diffs(n: usize) -> Vec<(usize, u8)> {
    (0..n).map(|i| (i, i as u8)).collect()
}

fn sample_app(n: usize, bytes_per_line: usize) -> App {
    let diffs = sample_diffs(n);
    let mut app = App::new(Vec::new(), Vec::new(), diffs);
    app.bytes_per_line = bytes_per_line;
    app
}

#[test]
fn diff_of_identical_buffers_is_empty() {
    let a = b"the same bytes".to_vec();
    assert_eq!(diff_files(&a, &a), Vec::<(usize, u8)>::new());
    assert_eq!(diff_files(&[], &[]), Vec::<(usize, u8)>::new());
}

#[test]
fn diff_reports_first_buffer_byte_at_mismatches() {
    assert_eq!(diff_files(b"axcyz", b"abcde"), vec![(1, b'x'), (3, b'y'), (4, b'z')]);
}

#[test]
fn diff_appends_tail_of_longer_buffer() {
    assert_eq!(diff_files(b"abc", b"abcde"), vec![(3, b'd'), (4, b'e')]);
    assert_eq!(diff_files(b"abcde", b"abc"), vec![(3, b'd'), (4, b'e')]);
    assert_eq!(diff_files(b"", b"xy"), vec![(0, b'x'), (1, b'y')]);
}

#[test]
fn app_new_starts_at_origin() {
    let app = App::new(vec![1], vec![2], vec![(0, 1)]);
    assert!(app.running);
    assert_eq!(app.cursor_pos, 0);
    assert_eq!(app.scroll, 0);
    assert_eq!(app.bytes_per_line, 0);
    assert!(app.selection.is_none());
    assert!(app.flash.is_none());
    assert!(app.search.matches.is_empty());
}

#[test]
fn movement_is_noop_without_row_width_or_content() {
    let mut app = App::new(Vec::new(), Vec::new(), vec![(0, 1), (1, 2)]);
    app.move_cursor_down(20);
    app.move_cursor_right(20);
    app.move_cursor_up();
    app.move_cursor_left();
    assert_eq!(app.cursor_pos, 0);
    assert_eq!(app.scroll, 0);

    let mut empty = sample_app(0, 4);
    empty.move_cursor_down(20);
    empty.move_cursor_right(20);
    assert_eq!(empty.cursor_pos, 0);
    assert_eq!(empty.scroll, 0);
}

#[test]
fn move_down_steps_one_row_and_clamps() {
    let mut app = sample_app(25, 10);
    app.move_cursor_down(20);
    assert_eq!(app.cursor_pos, 10);
    app.move_cursor_down(20);
    assert_eq!(app.cursor_pos, 20);
    app.move_cursor_down(20);
    assert_eq!(app.cursor_pos, 24);
    app.move_cursor_down(20);
    assert_eq!(app.cursor_pos, 24);
}

#[test]
fn move_up_clamps_into_first_row() {
    let mut app = sample_app(25, 10);
    app.cursor_pos = 15;
    app.move_cursor_up();
    assert_eq!(app.cursor_pos, 5);
    app.move_cursor_up();
    assert_eq!(app.cursor_pos, 0);
    app.move_cursor_up();
    assert_eq!(app.cursor_pos, 0);
}

#[test]
fn move_right_and_left_clamp_at_ends() {
    let mut app = sample_app(3, 2);
    app.move_cursor_left();
    assert_eq!(app.cursor_pos, 0);
    app.move_cursor_right(20);
    assert_eq!(app.cursor_pos, 1);
    app.move_cursor_right(20);
    assert_eq!(app.cursor_pos, 2);
    app.move_cursor_right(20);
    assert_eq!(app.cursor_pos, 2);
}

#[test]
fn scroll_invariant_holds_through_move_sequence() {
    // 100 entries, 10 per row, 7 visible rows (height 12).
    let mut app = sample_app(100, 10);
    let height = 12u16;
    let lines = (height - 5) as usize;
    let moves: Vec<u8> = vec![
        0, 0, 0, 0, 0, 0, 0, 0, 0, 0, 0, 0, 2, 2, 2, 0, 1, 1, 1, 1, 1, 1, 1, 1, 3, 3, 3, 2, 0,
        0, 1, 3, 3, 3, 3, 3, 3, 3, 3, 3, 3, 3, 3, 0, 0, 0, 0, 0, 0, 0, 0, 0, 0, 0, 0, 2,
    ];
    for m in moves {
        match m {
            0 => app.move_cursor_down(height),
            1 => app.move_cursor_up(),
            2 => app.move_cursor_right(height),
            _ => app.move_cursor_left(),
        }
        let row = app.cursor_pos / app.bytes_per_line;
        assert!(app.scroll <= row, "cursor row above viewport");
        assert!(row < app.scroll + lines, "cursor row below viewport");
        let tr = total_rows(app.diffs.len(), app.bytes_per_line);
        if tr >= lines {
            assert!(app.scroll <= tr - lines, "scrolled past content");
        }
    }
}

#[test]
fn clamp_scroll_after_shrink_stays_on_valid_rows() {
    let mut app = sample_app(100, 10);
    app.scroll = 9;
    // The viewport shrinks: fewer visible rows and wider rows.
    app.bytes_per_line = 20;
    let tr = total_rows(app.diffs.len(), app.bytes_per_line);
    assert_eq!(tr, 5);
    app.clamp_scroll(tr, 3);
    assert_eq!(app.scroll, 2);
    assert!(app.scroll <= tr - 3);
    assert!(app.scroll < tr);

    app.clamp_scroll(tr, 50);
    assert_eq!(app.scroll, 0);
}

#[test]
fn navigate_to_recenters_when_off_screen() {
    let mut app = sample_app(100, 10);
    let height = 12u16;
    let lines = (height - 5) as usize;
    app.navigate_to(95, height);
    assert_eq!(app.cursor_pos, 95);
    let row = app.cursor_pos / app.bytes_per_line;
    assert_eq!(app.scroll, row - lines / 2);
    assert!(app.scroll <= row && row < app.scroll + lines);

    // A visible target leaves the scroll alone.
    let before = app.scroll;
    app.navigate_to(92, height);
    assert_eq!(app.scroll, before);

    // Out-of-range targets clamp to the last entry.
    app.navigate_to(1000, height);
    assert_eq!(app.cursor_pos, 99);
}

#[test]
fn selection_tracks_cursor_while_active() {
    let mut app = sample_app(30, 10);
    app.cursor_pos = 5;
    app.start_selection();
    assert_eq!(app.selection, Some(Selection { anchor: 5, cursor: 5 }));
    app.move_cursor_right(20);
    assert_eq!(app.selection, Some(Selection { anchor: 5, cursor: 6 }));
    app.move_cursor_down(20);
    assert_eq!(app.selection, Some(Selection { anchor: 5, cursor: 16 }));
    app.cancel_selection();
    assert!(app.selection.is_none());
}

#[test]
fn yank_as_hex_formats_clears_and_flashes() {
    let mut app = App::new(Vec::new(), Vec::new(), vec![(0, 0xFF), (3, 0x0A), (7, 0x00)]);
    app.selection = Some(Selection { anchor: 0, cursor: 2 });
    let text = app.yank_as_hex();
    assert_eq!(text, Some("ff 0a 00".to_string()));
    assert!(app.selection.is_none());
    let flash = app.flash.expect("copy installs a flash");
    assert_eq!(flash.ticks_remaining, FLASH_TICKS);
    assert_eq!(flash.message, "Copied 3 bytes");
}

#[test]
fn yank_as_ascii_formats_bytes() {
    let mut app = App::new(Vec::new(), Vec::new(), vec![(0, b'H'), (1, b'i'), (2, 0x01)]);
    app.selection = Some(Selection { anchor: 2, cursor: 0 });
    let text = app.yank_as_ascii();
    assert_eq!(text, Some("Hi.".to_string()));
    assert!(app.selection.is_none());
    assert!(app.flash.is_some());
}

#[test]
fn yank_without_selection_changes_nothing() {
    let mut app = sample_app(5, 2);
    assert_eq!(app.yank_as_hex(), None);
    assert_eq!(app.yank_as_ascii(), None);
    assert!(app.flash.is_none());
}

#[test]
fn yank_with_stale_selection_returns_none() {
    let mut app = sample_app(5, 2);
    app.selection = Some(Selection { anchor: 3, cursor: 9 });
    assert_eq!(app.yank_as_hex(), None);
    assert_eq!(app.selection, Some(Selection { anchor: 3, cursor: 9 }));
}

#[test]
fn flash_counts_down_and_expires() {
    let mut app = sample_app(1, 1);
    app.flash = Some(Flash { message: "Copied 1 bytes".to_string(), ticks_remaining: 3 });
    app.tick();
    assert_eq!(app.flash.as_ref().unwrap().ticks_remaining, 2);
    app.tick();
    assert_eq!(app.flash.as_ref().unwrap().ticks_remaining, 1);
    app.tick();
    assert!(app.flash.is_none());
    app.tick();
    assert!(app.flash.is_none());
}

#[test]
fn search_commands_drive_navigation() {
    let mut diffs = sample_diffs(50);
    diffs[10].1 = 0xFF;
    diffs[40].1 = 0xFF;
    let mut app = App::new(Vec::new(), Vec::new(), diffs);
    app.bytes_per_line = 5;
    let height = 12u16;

    app.start_search(SearchKind::Hex);
    app.search.query = "FF".to_string();
    app.submit_search(height);
    assert_eq!(app.search.matches, vec![10, 40]);
    assert_eq!(app.cursor_pos, 10);

    app.next_match(height);
    assert_eq!(app.cursor_pos, 40);
    app.next_match(height);
    assert_eq!(app.cursor_pos, 10);
    app.prev_match(height);
    assert_eq!(app.cursor_pos, 40);

    app.cancel_search();
    assert!(app.search.matches.is_empty());
    assert!(app.search.current_match.is_none());
}

#[test]
fn handle_key_events_moves_and_quits() {
    let size = TerminalSize { width: 80, height: 20 };
    let mut app = sample_app(30, 10);
    handle_key_events(Key::Down, &mut app, size);
    assert_eq!(app.cursor_pos, 10);
    handle_key_events(Key::Char('j'), &mut app, size);
    assert_eq!(app.cursor_pos, 20);
    handle_key_events(Key::Char('k'), &mut app, size);
    assert_eq!(app.cursor_pos, 10);
    handle_key_events(Key::Char('l'), &mut app, size);
    assert_eq!(app.cursor_pos, 11);
    handle_key_events(Key::Char('h'), &mut app, size);
    assert_eq!(app.cursor_pos, 10);
    handle_key_events(Key::Other, &mut app, size);
    assert_eq!(app.cursor_pos, 10);
    assert!(app.running);
    handle_key_events(Key::Char('q'), &mut app, size);
    assert!(!app.running);
}

#[test]
fn viewer_moves_like_the_session() {
    let mut viewer = FileDiffViewer::new(sample_diffs(25));
    viewer.bytes_per_line = 10;
    viewer.move_cursor_down(20);
    assert_eq!(viewer.cursor_pos, 10);
    viewer.move_cursor_right(20);
    assert_eq!(viewer.cursor_pos, 11);
    viewer.move_cursor_left();
    assert_eq!(viewer.cursor_pos, 10);
    viewer.move_cursor_up();
    assert_eq!(viewer.cursor_pos, 0);
}

#[test]
fn classify_byte_covers_all_classes() {
    assert_eq!(classify_byte(0x00), ByteClass::Null);
    assert_eq!(classify_byte(b'A'), ByteClass::Graphic);
    assert_eq!(classify_byte(b'~'), ByteClass::Graphic);
    assert_eq!(classify_byte(b' '), ByteClass::OtherAscii);
    assert_eq!(classify_byte(0x7F), ByteClass::OtherAscii);
    assert_eq!(classify_byte(0x80), ByteClass::NonAscii);
    assert_eq!(classify_byte(0xFF), ByteClass::NonAscii);
}

#[test]
fn terminal_app_scrolls_both_panes() {
    let mut view = TerminalApp::new("68 69".to_string(), "hi".to_string());
    view.update_scroll(ScrollDirection::Up);
    assert_eq!(view.hex_scroll, 0);
    assert_eq!(view.ascii_scroll, 0);
    view.update_scroll(ScrollDirection::Down);
    view.update_scroll(ScrollDirection::Down);
    assert_eq!(view.hex_scroll, 2);
    assert_eq!(view.ascii_scroll, 2);
    view.update_scroll(ScrollDirection::Up);
    assert_eq!(view.hex_scroll, 1);
    assert_eq!(view.ascii_scroll, 1);
    assert_eq!(view.hex_diff, "68 69");
    assert_eq!(view.ascii_diff, "hi");
}

#[test]
fn total_rows_rounds_up() {
    assert_eq!(total_rows(0, 10), 0);
    assert_eq!(total_rows(1, 10), 1);
    assert_eq!(total_rows(10, 10), 1);
    assert_eq!(total_rows(11, 10), 2);
    assert_eq!(total_rows(100, 10), 10);
}

#[test]
fn search_query_editing() {
    let mut app = sample_app(5, 2);
    app.start_search(SearchKind::Hex);
    app.push_search_char('f');
    app.push_search_char('f');
    app.push_search_char('x');
    assert_eq!(app.search.query, "ffx");
    app.pop_search_char();
    assert_eq!(app.search.query, "ff");
    app.toggle_search_kind();
    assert_eq!(app.search.kind, SearchKind::Ascii);
    assert_eq!(app.search.query, "ff");
    app.pop_search_char();
    app.pop_search_char();
    app.pop_search_char();
    assert_eq!(app.search.query, "");
}
