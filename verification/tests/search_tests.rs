use hexdiff::search::{find_matches, parse_hex_string, SearchKind, SearchMode, SearchState};

#[test]
fn parse_hex_lowercase() {
    assert_eq!(parse_hex_string("ff aa bb"), vec![0xFF, 0xAA, 0xBB]);
}

#[test]
fn parse_hex_uppercase_no_spaces() {
    assert_eq!(parse_hex_string("FFAABB"), vec![0xFF, 0xAA, 0xBB]);
}

#[test]
fn parse_hex_mixed_spacing() {
    assert_eq!(parse_hex_string("0a 1B  2c"), vec![0x0A, 0x1B, 0x2C]);
}

#[test]
fn parse_hex_trailing_nibble_ignored() {
    assert_eq!(parse_hex_string("FF A"), vec![0xFF]);
}

#[test]
fn parse_hex_empty() {
    assert_eq!(parse_hex_string(""), Vec::<u8>::new());
}

#[test]
fn parse_hex_invalid_chars() {
    assert_eq!(parse_hex_string("GG"), Vec::<u8>::new());
}

#[test]
fn parse_hex_invalid_pair_dropped_not_fatal() {
    assert_eq!(parse_hex_string("GG0a"), vec![0x0A]);
    assert_eq!(parse_hex_string("0aG1ff"), vec![0x0A, 0xFF]);
}

#[test]
fn parse_hex_all_whitespace() {
    assert_eq!(parse_hex_string("   \t\n "), Vec::<u8>::new());
}

#[test]
fn find_matches_single_byte() {
    let diffs = vec![(0, 0xAA), (1, 0xBB), (2, 0xAA), (3, 0xCC)];
    assert_eq!(find_matches(&diffs, &[0xAA]), vec![0, 2]);
}

#[test]
fn find_matches_multi_byte() {
    let diffs = vec![(0, 0xAA), (1, 0xBB), (2, 0xAA), (3, 0xBB), (4, 0xCC)];
    assert_eq!(find_matches(&diffs, &[0xAA, 0xBB]), vec![0, 2]);
}

#[test]
fn find_matches_no_match() {
    let diffs = vec![(0, 0x01), (1, 0x02)];
    assert_eq!(find_matches(&diffs, &[0xFF]), Vec::<usize>::new());
}

#[test]
fn find_matches_empty_pattern() {
    let diffs = vec![(0, 0x01)];
    assert_eq!(find_matches(&diffs, &[]), Vec::<usize>::new());
}

#[test]
fn find_matches_pattern_longer_than_data() {
    let diffs = vec![(0, 0x01)];
    assert_eq!(find_matches(&diffs, &[0x01, 0x02]), Vec::<usize>::new());
}

#[test]
fn find_matches_overlapping() {
    let diffs = vec![(0, 0xAA), (1, 0xAA), (2, 0xAA)];
    assert_eq!(find_matches(&diffs, &[0xAA, 0xAA]), vec![0, 1]);
}

#[test]
fn search_state_submit_and_navigate() {
    let diffs = vec![(0, 0x01), (1, 0xFF), (2, 0x02), (3, 0xFF), (4, 0x03)];
    let mut state = SearchState::default();
    state.start(SearchKind::Hex);
    state.query = "FF".to_string();
    state.submit(&diffs);

    assert_eq!(state.matches, vec![1, 3]);
    assert_eq!(state.current_match, Some(0));
    assert_eq!(state.current_match_pos(), Some(1));

    state.next_match();
    assert_eq!(state.current_match, Some(1));
    assert_eq!(state.current_match_pos(), Some(3));

    state.next_match();
    assert_eq!(state.current_match, Some(0));

    state.prev_match();
    assert_eq!(state.current_match, Some(1));
}

#[test]
fn search_state_ascii_mode() {
    let diffs: Vec<(usize, u8)> = b"hello world"
        .iter()
        .enumerate()
        .map(|(i, &b)| (i, b))
        .collect();
    let mut state = SearchState::default();
    state.start(SearchKind::Ascii);
    state.query = "lo".to_string();
    state.submit(&diffs);

    assert_eq!(state.matches, vec![3]);
    assert_eq!(state.current_match_pos(), Some(3));
}

#[test]
fn search_state_no_matches() {
    let diffs = vec![(0, 0x00)];
    let mut state = SearchState::default();
    state.start(SearchKind::Hex);
    state.query = "FF".to_string();
    state.submit(&diffs);

    assert!(state.matches.is_empty());
    assert_eq!(state.current_match, None);
    assert_eq!(state.current_match_pos(), None);
}

#[test]
fn search_state_cancel_clears() {
    let diffs = vec![(0, 0xFF)];
    let mut state = SearchState::default();
    state.start(SearchKind::Hex);
    state.query = "FF".to_string();
    state.submit(&diffs);
    assert_eq!(state.matches.len(), 1);

    state.cancel();
    assert!(state.matches.is_empty());
    assert!(state.query.is_empty());
    assert_eq!(state.mode, SearchMode::Normal);
}

#[test]
fn search_state_toggle_kind() {
    let mut state = SearchState::default();
    state.start(SearchKind::Hex);
    assert_eq!(state.kind, SearchKind::Hex);

    state.toggle_kind();
    assert_eq!(state.kind, SearchKind::Ascii);
    assert_eq!(state.mode, SearchMode::Input(SearchKind::Ascii));

    state.toggle_kind();
    assert_eq!(state.kind, SearchKind::Hex);
}

#[test]
fn all_match_positions_covers_full_pattern() {
    let diffs = vec![(0, 0xAA), (1, 0xBB), (2, 0xCC), (3, 0xAA), (4, 0xBB)];
    let mut state = SearchState::default();
    state.start(SearchKind::Hex);
    state.query = "AA BB".to_string();
    state.submit(&diffs);

    let positions = state.all_match_positions();
    assert!(positions.contains(&0));
    assert!(positions.contains(&1));
    assert!(positions.contains(&3));
    assert!(positions.contains(&4));
    assert!(!positions.contains(&2));
}

#[test]
fn current_match_set_only_covers_current() {
    let diffs = vec![(0, 0xAA), (1, 0xBB), (2, 0xCC), (3, 0xAA), (4, 0xBB)];
    let mut state = SearchState::default();
    state.start(SearchKind::Hex);
    state.query = "AA BB".to_string();
    state.submit(&diffs);

    let current = state.current_match_set();
    assert!(current.contains(&0));
    assert!(current.contains(&1));
    assert!(!current.contains(&3));

    state.next_match();
    let current = state.current_match_set();
    assert!(!current.contains(&0));
    assert!(current.contains(&3));
    assert!(current.contains(&4));
}

#[test]
fn pattern_len_follows_kind() {
    let mut state = SearchState::default();
    state.start(SearchKind::Hex);
    state.query = "FF A".to_string();
    assert_eq!(state.pattern_len(), 1);
    assert_eq!(state.parse_pattern(), vec![0xFF]);

    state.start(SearchKind::Ascii);
    state.query = "abc".to_string();
    assert_eq!(state.pattern_len(), 3);
    assert_eq!(state.parse_pattern(), vec![0x61, 0x62, 0x63]);
}

#[test]
fn next_and_prev_are_noops_without_matches() {
    let mut state = SearchState::default();
    state.next_match();
    assert_eq!(state.current_match, None);
    state.prev_match();
    assert_eq!(state.current_match, None);
}

#[test]
fn submit_with_empty_query_finds_nothing() {
    let diffs = vec![(0, 0xAA), (1, 0xBB)];
    let mut state = SearchState::default();
    state.start(SearchKind::Hex);
    state.submit(&diffs);
    assert!(state.matches.is_empty());
    assert_eq!(state.current_match, None);

    state.start(SearchKind::Hex);
    state.query = "  \t ".to_string();
    state.submit(&diffs);
    assert!(state.matches.is_empty());
    assert_eq!(state.current_match, None);
}
