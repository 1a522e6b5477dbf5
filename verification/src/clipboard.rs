//! Byte-range selection over diff-list indices, and the clipboard text
//! encoders that turn selected bytes into hex or ASCII strings.

use vstd::prelude::*;
use vstd::string::*;

use crate::diff::diff_bytes;
use crate::text::{
    chars_of_ascii, is_ascii_graphic_byte, is_ascii_whitespace_byte, string_from_ascii,
};

verus! {

/// Ordered range of selected diff-list indices (inclusive on both ends).
#[derive(Debug, Clone, Copy, PartialEq, Eq, Structural)]
pub struct Selection {
    pub anchor: usize,
    pub cursor: usize,
}

impl Selection {
    /// Inclusive start of the selection: the smaller endpoint.
    pub open spec fn spec_start(self) -> int {
        if self.anchor <= self.cursor {
            self.anchor as int
        } else {
            self.cursor as int
        }
    }

    /// Inclusive end of the selection: the larger endpoint.
    pub open spec fn spec_end(self) -> int {
        if self.anchor <= self.cursor {
            self.cursor as int
        } else {
            self.anchor as int
        }
    }

    /// Number of selected positions; at least 1, since the endpoints collapse
    /// to a single index for a single-point selection.
    pub open spec fn spec_len(self) -> int {
        self.spec_end() - self.spec_start() + 1
    }

    /// Whether a diff-list index falls within the selection.
    pub open spec fn spec_contains(self, pos: int) -> bool {
        self.spec_start() <= pos <= self.spec_end()
    }

    pub fn new(anchor: usize) -> (s: Self)
        ensures
            s.anchor == anchor,
            s.cursor == anchor,
    {
        Self { anchor, cursor: anchor }
    }

    /// Inclusive start of the selection.
    pub fn start(&self) -> (r: usize)
        ensures
            r == self.spec_start(),
    {
        if self.anchor <= self.cursor {
            self.anchor
        } else {
            self.cursor
        }
    }

    /// Inclusive end of the selection.
    pub fn end(&self) -> (r: usize)
        ensures
            r == self.spec_end(),
    {
        if self.anchor <= self.cursor {
            self.cursor
        } else {
            self.anchor
        }
    }

    /// Number of selected positions.
    pub fn len(&self) -> (r: usize)
        requires
            self.spec_end() < usize::MAX,
        ensures
            r == self.spec_len(),
    {
        self.end() - self.start() + 1
    }

    /// Whether a given diff-list index falls within the selection.
    pub fn contains(&self, pos: usize) -> (r: bool)
        ensures
            r == self.spec_contains(pos as int),
    {
        pos >= self.start() && pos <= self.end()
    }

    /// The byte values of the selected diff entries, in diff-list order, or
    /// `None` when the selection reaches past the end of the diff list.
    pub fn extract_bytes(&self, diffs: &[(usize, u8)]) -> (r: Option<Vec<u8>>)
        ensures
            match r {
                None => self.spec_end() >= diffs@.len(),
                Some(v) => self.spec_end() < diffs@.len() && v@ == diff_bytes(diffs@).subrange(
                    self.spec_start(),
                    self.spec_end() + 1,
                ),
            },
    {
        let s = self.start();
        let e = self.end();
        if e >= diffs.len() {
            return None;
        }
        let mut out: Vec<u8> = Vec::new();
        let mut k = s;
        while k <= e
            invariant
                s == self.spec_start(),
                e == self.spec_end(),
                e < diffs@.len(),
                s <= k <= e + 1,
                out@ == diff_bytes(diffs@).subrange(s as int, k as int),
            decreases e + 1 - k,
        {
            out.push(diffs[k].1);
            proof {
                assert(out@ =~= diff_bytes(diffs@).subrange(s as int, k + 1 as int));
            }
            k = k + 1;
        }
        Some(out)
    }
}

/// What an OSC 52 clipboard-set control sequence looks like around an
/// already-encoded payload.
pub open spec fn osc52_payload(enc: Seq<char>) -> Seq<char> {
    "\u{1b}]52;c;"@ + enc + "\u{7}"@
}

/// The full control sequence: wrapped in a DCS passthrough when the terminal
/// sits inside tmux, bare otherwise.
pub open spec fn osc52_framed(enc: Seq<char>, wrap_tmux: bool) -> Seq<char> {
    if wrap_tmux {
        "\u{1b}Ptmux;\u{1b}"@ + osc52_payload(enc) + "\u{1b}\\"@
    } else {
        osc52_payload(enc)
    }
}

/// The standard-alphabet, padded base64 encoding of a byte buffer.
pub uninterp spec fn base64_standard_chars(bytes: Seq<u8>) -> Seq<char>;

/// Relies on `base64::Engine::encode` with the
/// `base64::engine::general_purpose::STANDARD` engine: standard-alphabet
/// base64 with padding, a pure function of the input bytes that produces four
/// characters for every three input bytes, rounded up.
#[verifier::external_body]
fn base64_standard(bytes: &[u8]) -> (r: String)
    requires
        4 * ((bytes@.len() + 2) / 3) <= usize::MAX as int,
    ensures
        r@ == base64_standard_chars(bytes@),
        r@.len() == 4 * ((bytes@.len() + 2) / 3),
{
    base64::Engine::encode(&base64::engine::general_purpose::STANDARD, bytes)
}

/// Frame an already base64-encoded payload as an OSC 52 clipboard-set
/// sequence, optionally wrapped in a tmux DCS passthrough.
pub fn osc52_frame(encoded: &str, wrap_tmux: bool) -> (r: String)
    ensures
        r@ == osc52_framed(encoded@, wrap_tmux),
{
    let mut s = String::new();
    if wrap_tmux {
        s.append("\u{1b}Ptmux;\u{1b}");
    }
    s.append("\u{1b}]52;c;");
    s.append(encoded);
    s.append("\u{7}");
    if wrap_tmux {
        s.append("\u{1b}\\");
    }
    proof {
        assert(s@ =~= osc52_framed(encoded@, wrap_tmux));
    }
    s
}

/// The OSC 52 sequence that copies `text` to the system clipboard: the text's
/// bytes base64-encoded and framed, with the tmux passthrough when requested.
pub fn osc52_sequence(text: &str, wrap_tmux: bool) -> (r: String)
    requires
        4 * ((text.spec_bytes().len() + 2) / 3) <= usize::MAX as int,
    ensures
        r@ == osc52_framed(base64_standard_chars(text.spec_bytes()), wrap_tmux),
{
    let encoded = base64_standard(text.as_bytes());
    osc52_frame(encoded.as_str(), wrap_tmux)
}

/// The lowercase hex digit for a value below 16, as an ASCII byte.
pub open spec fn hex_digit_byte(n: u8) -> u8 {
    if n < 10 {
        (0x30 + n) as u8
    } else {
        (0x57 + n) as u8
    }
}

/// The hex rendering of the bytes from position `i` on: two lowercase digits
/// per byte, space-separated, no trailing space.
pub open spec fn format_hex_from(bs: Seq<u8>, i: int) -> Seq<char>
    decreases bs.len() - i,
{
    if i < 0 || i >= bs.len() {
        Seq::empty()
    } else if i == bs.len() - 1 {
        seq![
            hex_digit_byte(bs[i] / 16) as char,
            hex_digit_byte(bs[i] % 16) as char,
        ]
    } else {
        seq![
            hex_digit_byte(bs[i] / 16) as char,
            hex_digit_byte(bs[i] % 16) as char,
            ' ',
        ] + format_hex_from(bs, i + 1)
    }
}

/// The full hex rendering of a byte buffer (e.g. `"ff 0a 3c"`).
pub open spec fn format_hex_chars(bs: Seq<u8>) -> Seq<char> {
    format_hex_from(bs, 0)
}

/// The printable stand-in for a byte: itself if ASCII graphic or whitespace,
/// `.` otherwise.
pub open spec fn printable_char_of(b: u8) -> char {
    if is_ascii_graphic_byte(b) || is_ascii_whitespace_byte(b) {
        b as char
    } else {
        '.'
    }
}

/// The ASCII rendering of a byte buffer, one character per byte.
pub open spec fn format_ascii_chars(bs: Seq<u8>) -> Seq<char> {
    bs.map(|_i, b: u8| printable_char_of(b))
}

/// Format selected bytes as a space-separated lowercase hex string
/// (e.g. `"ff 0a 3c"`); the empty input yields the empty string.
pub fn format_hex(bytes: &[u8]) -> (r: String)
    ensures
        r@ == format_hex_chars(bytes@),
{
    let mut out: Vec<u8> = Vec::new();
    let n = bytes.len();
    let mut i: usize = 0;
    while i < n
        invariant
            n == bytes@.len(),
            i <= n,
            forall|k: int| 0 <= k < out@.len() ==> out@[k] < 0x80,
            chars_of_ascii(out@) + format_hex_from(bytes@, i as int) == format_hex_chars(
                bytes@,
            ),
        decreases n - i,
    {
        let b = bytes[i];
        let ghost prev = out@;
        out.push(if b / 16 < 10 {
            0x30 + b / 16
        } else {
            0x57 + b / 16
        });
        out.push(if b % 16 < 10 {
            0x30 + b % 16
        } else {
            0x57 + b % 16
        });
        if i + 1 < n {
            out.push(0x20);
            proof {
                assert(chars_of_ascii(out@) =~= chars_of_ascii(prev) + seq![
                    hex_digit_byte(b / 16) as char,
                    hex_digit_byte(b % 16) as char,
                    ' ',
                ]);
                assert(chars_of_ascii(out@) + format_hex_from(bytes@, i + 1 as int)
                    =~= chars_of_ascii(prev) + format_hex_from(bytes@, i as int));
            }
        } else {
            proof {
                assert(chars_of_ascii(out@) =~= chars_of_ascii(prev) + seq![
                    hex_digit_byte(b / 16) as char,
                    hex_digit_byte(b % 16) as char,
                ]);
                assert(chars_of_ascii(out@) + format_hex_from(bytes@, i + 1 as int)
                    =~= chars_of_ascii(prev) + format_hex_from(bytes@, i as int));
            }
        }
        i = i + 1;
    }
    proof {
        assert(chars_of_ascii(out@) =~= format_hex_chars(bytes@));
    }
    string_from_ascii(out)
}

/// Format selected bytes as an ASCII string, replacing non-printable bytes
/// with `.`; the result always has one character per input byte.
pub fn format_ascii(bytes: &[u8]) -> (r: String)
    ensures
        r@ == format_ascii_chars(bytes@),
        r@.len() == bytes@.len(),
{
    let mut out: Vec<u8> = Vec::new();
    let n = bytes.len();
    let mut i: usize = 0;
    while i < n
        invariant
            n == bytes@.len(),
            i <= n,
            forall|k: int| 0 <= k < out@.len() ==> out@[k] < 0x80,
            chars_of_ascii(out@) == format_ascii_chars(bytes@.take(i as int)),
        decreases n - i,
    {
        let b = bytes[i];
        let ghost prev = out@;
        let printable = (0x21 <= b && b <= 0x7e) || b == 0x20 || b == 0x09 || b == 0x0a || b
            == 0x0c || b == 0x0d;
        out.push(if printable {
            b
        } else {
            0x2e
        });
        proof {
            assert(chars_of_ascii(out@) =~= chars_of_ascii(prev).push(printable_char_of(b)));
            assert(format_ascii_chars(bytes@.take(i + 1 as int)) =~= format_ascii_chars(
                bytes@.take(i as int),
            ).push(printable_char_of(b)));
        }
        i = i + 1;
    }
    proof {
        assert(bytes@.take(n as int) =~= bytes@);
    }
    string_from_ascii(out)
}

} // verus!
