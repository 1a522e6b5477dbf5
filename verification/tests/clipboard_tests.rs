use hexdiff::clipboard::{format_ascii, format_hex, osc52_frame, osc52_sequence, Selection};

#[test]
fn selection_single_byte() {
    let sel = Selection::new(5);
    assert_eq!(sel.start(), 5);
    assert_eq!(sel.end(), 5);
    assert_eq!(sel.len(), 1);
    assert!(sel.contains(5));
    assert!(!sel.contains(4));
}

#[test]
fn selection_forward() {
    let mut sel = Selection::new(2);
    sel.cursor = 7;
    assert_eq!(sel.start(), 2);
    assert_eq!(sel.end(), 7);
    assert_eq!(sel.len(), 6);
    assert!(sel.contains(2));
    assert!(sel.contains(5));
    assert!(sel.contains(7));
    assert!(!sel.contains(8));
}

#[test]
fn selection_backward() {
    let mut sel = Selection::new(10);
    sel.cursor = 3;
    assert_eq!(sel.start(), 3);
    assert_eq!(sel.end(), 10);
    assert_eq!(sel.len(), 8);
}

#[test]
fn format_hex_basic() {
    assert_eq!(format_hex(&[0xFF, 0x0A, 0x00]), "ff 0a 00");
}

#[test]
fn format_hex_empty() {
    assert_eq!(format_hex(&[]), "");
}

#[test]
fn format_ascii_printable() {
    assert_eq!(format_ascii(b"Hello"), "Hello");
}

#[test]
fn format_ascii_non_printable() {
    assert_eq!(format_ascii(&[0x01, 0x41, 0x00, 0x7F]), ".A..");
}

#[test]
fn format_ascii_spaces_preserved() {
    assert_eq!(format_ascii(b"a b"), "a b");
}

#[test]
fn format_ascii_length_preserved() {
    let input: Vec<u8> = (0u8..=255).collect();
    assert_eq!(format_ascii(&input).chars().count(), input.len());
    assert_eq!(format_ascii(&[]).len(), 0);
}

#[test]
fn format_hex_single_byte_no_trailing_space() {
    assert_eq!(format_hex(&[0x00]), "00");
    assert_eq!(format_hex(&[0x9c]), "9c");
}

#[test]
fn extract_bytes_inside_and_outside() {
    let diffs = vec![(0usize, 0x10u8), (4, 0x20), (9, 0x30)];
    let mut sel = Selection::new(0);
    sel.cursor = 2;
    assert_eq!(sel.extract_bytes(&diffs), Some(vec![0x10, 0x20, 0x30]));
    sel.cursor = 3;
    assert_eq!(sel.extract_bytes(&diffs), None);
}

#[test]
fn osc52_sequence_encodes_and_frames() {
    assert_eq!(osc52_sequence("hi", false), "\x1b]52;c;aGk=\x07");
    assert_eq!(
        osc52_sequence("hi", true),
        "\x1bPtmux;\x1b\x1b]52;c;aGk=\x07\x1b\\"
    );
}

#[test]
fn osc52_frame_wraps_payload() {
    assert_eq!(osc52_frame("abcd", false), "\x1b]52;c;abcd\x07");
    assert_eq!(osc52_frame("abcd", true), "\x1bPtmux;\x1b\x1b]52;c;abcd\x07\x1b\\");
}
