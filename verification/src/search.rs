//! Search engine: parsing a hex or ASCII query into a byte pattern and
//! finding every (possibly overlapping) occurrence of the pattern in the
//! byte values of the diff list, plus the state that cycles through matches.

use std::collections::HashSet;

use vstd::prelude::*;
use vstd::string::*;
use vstd::utf8::encode_utf8;

use crate::diff::diff_bytes;

verus! {

broadcast use vstd::std_specs::hash::group_hash_axioms;

/// Whether a character has the Unicode white-space property.
pub open spec fn is_whitespace_char(c: char) -> bool {
    let u = c as u32;
    u == 0x09 || u == 0x0a || u == 0x0b || u == 0x0c || u == 0x0d || u == 0x20 || u == 0x85
        || u == 0xa0 || u == 0x1680 || (0x2000 <= u && u <= 0x200a) || u == 0x2028 || u == 0x2029
        || u == 0x202f || u == 0x205f || u == 0x3000
}

/// Whether a character is a hex digit (either case).
pub open spec fn is_hex_digit_char(c: char) -> bool {
    let u = c as u32;
    (0x30 <= u && u <= 0x39) || (0x61 <= u && u <= 0x66) || (0x41 <= u && u <= 0x46)
}

/// The value of a hex digit.
pub open spec fn hex_digit_val(c: char) -> int
    recommends
        is_hex_digit_char(c),
{
    let u = c as u32;
    if 0x30 <= u && u <= 0x39 {
        u - 0x30
    } else if 0x61 <= u && u <= 0x66 {
        u - 0x57
    } else {
        u - 0x37
    }
}

/// The characters of a query with all whitespace removed, order kept.
pub open spec fn strip_whitespace(s: Seq<char>) -> Seq<char>
    decreases s.len(),
{
    if s.len() == 0 {
        Seq::empty()
    } else if is_whitespace_char(s[0]) {
        strip_whitespace(s.drop_first())
    } else {
        seq![s[0]] + strip_whitespace(s.drop_first())
    }
}

/// The bytes parsed from a whitespace-free character sequence, taken in
/// consecutive pairs: a pair of hex digits yields one byte, a pair holding
/// any other character is dropped, and a trailing single character is
/// discarded.
pub open spec fn parse_hex_pairs(h: Seq<char>) -> Seq<u8>
    decreases h.len(),
{
    if h.len() < 2 {
        Seq::empty()
    } else {
        let rest = parse_hex_pairs(h.skip(2));
        if is_hex_digit_char(h[0]) && is_hex_digit_char(h[1]) {
            seq![(16 * hex_digit_val(h[0]) + hex_digit_val(h[1])) as u8] + rest
        } else {
            rest
        }
    }
}

/// The byte pattern denoted by a hex query.
pub open spec fn parse_hex_chars(s: Seq<char>) -> Seq<u8> {
    parse_hex_pairs(strip_whitespace(s))
}

/// Whether `c` has the Unicode white-space property.
fn is_whitespace_exec(c: char) -> (r: bool)
    ensures
        r == is_whitespace_char(c),
{
    let u = c as u32;
    u == 0x09 || u == 0x0a || u == 0x0b || u == 0x0c || u == 0x0d || u == 0x20 || u == 0x85
        || u == 0xa0 || u == 0x1680 || (0x2000 <= u && u <= 0x200a) || u == 0x2028 || u == 0x2029
        || u == 0x202f || u == 0x205f || u == 0x3000
}

/// The value of `c` as a hex digit, or `None` when it is not one.
fn hex_digit_exec(c: char) -> (r: Option<u8>)
    ensures
        match r {
            Some(v) => is_hex_digit_char(c) && v == hex_digit_val(c),
            None => !is_hex_digit_char(c),
        },
{
    let u = c as u32;
    if 0x30 <= u && u <= 0x39 {
        Some((u - 0x30) as u8)
    } else if 0x61 <= u && u <= 0x66 {
        Some((u - 0x57) as u8)
    } else if 0x41 <= u && u <= 0x46 {
        Some((u - 0x37) as u8)
    } else {
        None
    }
}

/// Parse a hex query (e.g. `"FF AA BB"` or `"ffaabb"`) into raw bytes.
///
/// Whitespace is stripped and the remaining characters are consumed in
/// pairs; a pair containing a non-hex character is silently dropped, and an
/// incomplete trailing character is ignored.
pub fn parse_hex_string(s: &str) -> (r: Vec<u8>)
    ensures
        r@ == parse_hex_chars(s@),
{
    let n = s.unicode_len();
    let mut stripped: Vec<char> = Vec::new();
    let mut i: usize = 0;
    proof {
        assert(s@.skip(0) =~= s@);
        assert(stripped@ + strip_whitespace(s@) =~= strip_whitespace(s@));
    }
    while i < n
        invariant
            n == s@.len(),
            i <= n,
            stripped@ + strip_whitespace(s@.skip(i as int)) == strip_whitespace(s@),
        decreases n - i,
    {
        let c = s.get_char(i);
        proof {
            assert(s@.skip(i as int)[0] == s@[i as int]);
            assert(s@.skip(i as int).drop_first() =~= s@.skip(i + 1 as int));
        }
        if !is_whitespace_exec(c) {
            stripped.push(c);
            proof {
                assert(stripped@ + strip_whitespace(s@.skip(i + 1 as int)) =~= strip_whitespace(
                    s@,
                ));
            }
        }
        i = i + 1;
    }
    proof {
        assert(s@.skip(n as int) =~= Seq::<char>::empty());
        assert(stripped@ =~= strip_whitespace(s@));
    }
    let h = stripped;
    let m = h.len();
    let mut out: Vec<u8> = Vec::new();
    let mut j: usize = 0;
    proof {
        assert(h@.skip(0) =~= h@);
        assert(out@ + parse_hex_pairs(h@) =~= parse_hex_pairs(h@));
    }
    while m >= 2 && j < m - 1
        invariant
            m == h@.len(),
            j <= m,
            h@ == strip_whitespace(s@),
            out@ + parse_hex_pairs(h@.skip(j as int)) == parse_hex_pairs(h@),
        decreases m - j,
    {
        let hi = h[j];
        let lo = h[j + 1];
        proof {
            assert(h@.skip(j as int)[0] == h@[j as int]);
            assert(h@.skip(j as int)[1] == h@[j + 1 as int]);
            assert(h@.skip(j as int).skip(2) =~= h@.skip(j + 2 as int));
        }
        match (hex_digit_exec(hi), hex_digit_exec(lo)) {
            (Some(hv), Some(lv)) => {
                out.push(16 * hv + lv);
                proof {
                    assert(out@ + parse_hex_pairs(h@.skip(j + 2 as int)) =~= parse_hex_pairs(
                        h@,
                    ));
                }
            },
            _ => {
                proof {
                    assert(out@ + parse_hex_pairs(h@.skip(j + 2 as int)) =~= parse_hex_pairs(
                        h@,
                    ));
                }
            },
        }
        j = j + 2;
    }
    proof {
        assert(h@.skip(j as int).len() < 2);
        assert(out@ =~= parse_hex_pairs(h@));
    }
    out
}

/// Whether the pattern occurs in `bytes` starting at position `i`.
pub open spec fn match_at(bytes: Seq<u8>, pat: Seq<u8>, i: int) -> bool {
    0 <= i && i + pat.len() <= bytes.len() && bytes.subrange(i, i + pat.len() as int) == pat
}

/// The start positions at or after `i` where the pattern occurs, ascending.
pub open spec fn matches_from(bytes: Seq<u8>, pat: Seq<u8>, i: int) -> Seq<usize>
    decreases bytes.len() - i,
{
    if pat.len() == 0 || i + pat.len() > bytes.len() {
        Seq::empty()
    } else {
        let rest = matches_from(bytes, pat, i + 1);
        if match_at(bytes, pat, i) {
            seq![i as usize] + rest
        } else {
            rest
        }
    }
}

/// Every start position where the pattern occurs, ascending; empty when the
/// pattern is empty or longer than the byte stream.
pub open spec fn spec_find_matches(bytes: Seq<u8>, pat: Seq<u8>) -> Seq<usize> {
    matches_from(bytes, pat, 0)
}

proof fn lemma_matches_from_correct(bytes: Seq<u8>, pat: Seq<u8>, i: int)
    requires
        bytes.len() <= usize::MAX,
    ensures
        forall|j: int|
            0 <= j < matches_from(bytes, pat, i).len() ==> i <= #[trigger] matches_from(
                bytes,
                pat,
                i,
            )[j] as int && match_at(bytes, pat, matches_from(bytes, pat, i)[j] as int),
        forall|j: int, k: int|
            0 <= j < k < matches_from(bytes, pat, i).len() ==> matches_from(bytes, pat, i)[j]
                < matches_from(bytes, pat, i)[k],
        forall|p: int|
            pat.len() >= 1 && i <= p && match_at(bytes, pat, p) ==> matches_from(
                bytes,
                pat,
                i,
            ).contains(p as usize),
    decreases bytes.len() - i,
{
    if pat.len() == 0 || i + pat.len() > bytes.len() {
        assert forall|p: int|
            pat.len() >= 1 && i <= p && match_at(bytes, pat, p) implies matches_from(
            bytes,
            pat,
            i,
        ).contains(p as usize) by {
            assert(!match_at(bytes, pat, p));
        }
    } else {
        lemma_matches_from_correct(bytes, pat, i + 1);
        let rest = matches_from(bytes, pat, i + 1);
        let m = matches_from(bytes, pat, i);
        if match_at(bytes, pat, i) {
            assert(m == seq![i as usize] + rest);
            assert forall|p: int|
                pat.len() >= 1 && i <= p && match_at(bytes, pat, p) implies m.contains(
                p as usize,
            ) by {
                if p == i {
                    assert(m[0] == i as usize);
                } else {
                    assert(rest.contains(p as usize));
                    let w = choose|w: int| 0 <= w < rest.len() && rest[w] == p as usize;
                    assert(m[w + 1] == p as usize);
                }
            }
        } else {
            assert forall|p: int|
                pat.len() >= 1 && i <= p && match_at(bytes, pat, p) implies m.contains(
                p as usize,
            ) by {
                assert(p != i);
                assert(rest.contains(p as usize));
                let w = choose|w: int| 0 <= w < rest.len() && rest[w] == p as usize;
                assert(m[w] == p as usize);
            }
        }
    }
}

/// What `find_matches` returns, characterized position by position: a
/// position is listed if and only if the pattern occurs there, the listing is
/// strictly ascending, and overlapping occurrences are all listed.
pub proof fn lemma_find_matches_characterization(bytes: Seq<u8>, pat: Seq<u8>)
    requires
        bytes.len() <= usize::MAX,
    ensures
        pat.len() == 0 ==> spec_find_matches(bytes, pat) == Seq::<usize>::empty(),
        pat.len() >= 1 ==> forall|p: usize|
            #[trigger] spec_find_matches(bytes, pat).contains(p) <==> match_at(
                bytes,
                pat,
                p as int,
            ),
        forall|j: int, k: int|
            0 <= j < k < spec_find_matches(bytes, pat).len() ==> spec_find_matches(bytes, pat)[j]
                < spec_find_matches(bytes, pat)[k],
{
    lemma_matches_from_correct(bytes, pat, 0);
    if pat.len() == 0 {
        return;
    }
    assert forall|p: usize| #[trigger] spec_find_matches(bytes, pat).contains(p) implies match_at(
        bytes,
        pat,
        p as int,
    ) by {
        let w = choose|w: int|
            0 <= w < spec_find_matches(bytes, pat).len() && spec_find_matches(bytes, pat)[w] == p;
        assert(match_at(bytes, pat, spec_find_matches(bytes, pat)[w] as int));
    }
}

/// Find all starting indices where `pattern` appears in the byte values of
/// `diffs`, overlapping occurrences included, in ascending order.
pub fn find_matches(diffs: &[(usize, u8)], pattern: &[u8]) -> (r: Vec<usize>)
    ensures
        r@ == spec_find_matches(diff_bytes(diffs@), pattern@),
        pattern@.len() >= 1 ==> forall|p: usize|
            #[trigger] r@.contains(p) <==> match_at(diff_bytes(diffs@), pattern@, p as int),
        forall|j: int, k: int| 0 <= j < k < r@.len() ==> r@[j] < r@[k],
{
    let mut r: Vec<usize> = Vec::new();
    let plen = pattern.len();
    let dn = diffs.len();
    proof {
        assert(diff_bytes(diffs@).len() == diffs@.len());
        lemma_find_matches_characterization(diff_bytes(diffs@), pattern@);
    }
    if plen == 0 || dn < plen {
        proof {
            assert(r@ =~= spec_find_matches(diff_bytes(diffs@), pattern@));
        }
        return r;
    }
    let mut bytes: Vec<u8> = Vec::new();
    let mut t: usize = 0;
    while t < dn
        invariant
            dn == diffs@.len(),
            t <= dn,
            bytes@ =~= diff_bytes(diffs@).take(t as int),
        decreases dn - t,
    {
        bytes.push(diffs[t].1);
        proof {
            assert(bytes@ =~= diff_bytes(diffs@).take(t + 1 as int));
        }
        t = t + 1;
    }
    proof {
        assert(bytes@ =~= diff_bytes(diffs@));
    }
    let n = bytes.len();
    let ghost bs = diff_bytes(diffs@);
    let mut i: usize = 0;
    while i <= n - plen
        invariant
            n == bs.len(),
            bytes@ == bs,
            1 <= plen <= n,
            plen == pattern@.len(),
            i <= n - plen + 1,
            r@ + matches_from(bs, pattern@, i as int) == spec_find_matches(bs, pattern@),
        decreases n - i,
    {
        let mut j: usize = 0;
        let mut eq = true;
        while j < plen && eq
            invariant
                n == bs.len(),
                bytes@ == bs,
                1 <= plen <= n,
                plen == pattern@.len(),
                i <= n - plen,
                j <= plen,
                eq ==> forall|k: int| 0 <= k < j ==> bs[i + k] == pattern@[k],
                !eq ==> exists|k: int| 0 <= k < plen && bs[i + k] != pattern@[k],
            decreases plen - j + (if eq {
                1int
            } else {
                0int
            }),
        {
            if bytes[i + j] != pattern[j] {
                eq = false;
            } else {
                j = j + 1;
            }
        }
        proof {
            if eq {
                assert(bs.subrange(i as int, i + plen as int) =~= pattern@);
                assert(match_at(bs, pattern@, i as int));
            } else {
                let k = choose|k: int| 0 <= k < plen && bs[i + k] != pattern@[k];
                assert(bs.subrange(i as int, i + plen as int)[k] == bs[i + k]);
                assert(!match_at(bs, pattern@, i as int));
            }
        }
        if eq {
            r.push(i);
            proof {
                assert(r@ + matches_from(bs, pattern@, i + 1 as int) =~= spec_find_matches(
                    bs,
                    pattern@,
                ));
            }
        } else {
            proof {
                assert(r@ + matches_from(bs, pattern@, i + 1 as int) =~= spec_find_matches(
                    bs,
                    pattern@,
                ));
            }
        }
        i = i + 1;
    }
    proof {
        assert(matches_from(bs, pattern@, i as int) =~= Seq::<usize>::empty());
        assert(r@ =~= spec_find_matches(bs, pattern@));
    }
    r
}

/// Distinguishes between hex byte search and ASCII text search.
#[derive(Debug, Clone, Copy, PartialEq, Eq, Structural)]
pub enum SearchKind {
    Hex,
    Ascii,
}

/// Whether the application is accepting search input or in normal navigation.
#[derive(Debug, Clone, Copy, PartialEq, Eq, Structural)]
pub enum SearchMode {
    Normal,
    Input(SearchKind),
}

/// Holds all state related to an active or completed search.
#[derive(Debug, Clone)]
pub struct SearchState {
    pub mode: SearchMode,
    pub query: String,
    pub kind: SearchKind,
    pub matches: Vec<usize>,
    pub current_match: Option<usize>,
}

impl Default for SearchState {
    /// The idle state: normal mode, hex kind, empty query, no matches.
    fn default() -> (s: Self)
        ensures
            s.mode == SearchMode::Normal,
            s.query@ == Seq::<char>::empty(),
            s.kind == SearchKind::Hex,
            s.matches@ == Seq::<usize>::empty(),
            s.current_match is None,
            s.wf(),
    {
        Self {
            mode: SearchMode::Normal,
            query: String::new(),
            kind: SearchKind::Hex,
            matches: Vec::new(),
            current_match: None,
        }
    }
}

impl SearchState {
    /// The byte pattern the current query denotes: hex pairs for a hex
    /// search, the raw UTF-8 encoding of the query for an ASCII search.
    pub open spec fn spec_pattern(self) -> Seq<u8> {
        match self.kind {
            SearchKind::Hex => parse_hex_chars(self.query@),
            SearchKind::Ascii => encode_utf8(self.query@),
        }
    }

    /// The search-state invariant: matches are strictly ascending, and the
    /// current-match index is present exactly when there are matches and
    /// stays within them.
    pub open spec fn wf(self) -> bool {
        &&& (self.current_match is None <==> self.matches@.len() == 0)
        &&& (match self.current_match {
            Some(idx) => idx < self.matches@.len(),
            None => true,
        })
        &&& (forall|j: int, k: int|
            0 <= j < k < self.matches@.len() ==> self.matches@[j] < self.matches@[k])
    }

    /// The diff-list index of the current match, if any.
    pub open spec fn spec_current_match_pos(self) -> Option<usize> {
        match self.current_match {
            Some(idx) => if idx < self.matches@.len() {
                Some(self.matches@[idx as int])
            } else {
                None
            },
            None => None,
        }
    }

    /// The diff-list indices covered by the full span of every match.
    pub open spec fn spec_all_match_positions(self) -> Set<usize> {
        Set::new(
            |p: usize|
                exists|j: int|
                    0 <= j < self.matches@.len() && #[trigger] self.matches@[j] <= p
                        < self.matches@[j] + self.spec_pattern().len(),
        )
    }

    /// The diff-list indices covered by only the current match.
    pub open spec fn spec_current_match_set(self) -> Set<usize> {
        match self.spec_current_match_pos() {
            Some(start) => Set::new(
                |p: usize| start <= p < start + self.spec_pattern().len(),
            ),
            None => Set::empty(),
        }
    }

    /// Enter search input mode, clearing any previous results.
    pub fn start(&mut self, kind: SearchKind)
        ensures
            final(self).mode == SearchMode::Input(kind),
            final(self).kind == kind,
            final(self).query@ == Seq::<char>::empty(),
            final(self).matches@ == Seq::<usize>::empty(),
            final(self).current_match is None,
            final(self).wf(),
    {
        self.mode = SearchMode::Input(kind);
        self.kind = kind;
        self.query = String::new();
        self.matches = Vec::new();
        self.current_match = None;
    }

    /// Abort the search and reset state.
    pub fn cancel(&mut self)
        ensures
            final(self).mode == SearchMode::Normal,
            final(self).kind == old(self).kind,
            final(self).query@ == Seq::<char>::empty(),
            final(self).matches@ == Seq::<usize>::empty(),
            final(self).current_match is None,
            final(self).wf(),
    {
        self.mode = SearchMode::Normal;
        self.query = String::new();
        self.matches = Vec::new();
        self.current_match = None;
    }

    /// Toggle between hex and ASCII search while in input mode.
    pub fn toggle_kind(&mut self)
        ensures
            final(self).kind == (match old(self).kind {
                SearchKind::Hex => SearchKind::Ascii,
                SearchKind::Ascii => SearchKind::Hex,
            }),
            final(self).mode == SearchMode::Input(final(self).kind),
            final(self).query == old(self).query,
            final(self).matches == old(self).matches,
            final(self).current_match == old(self).current_match,
            old(self).wf() ==> final(self).wf(),
    {
        self.kind = match self.kind {
            SearchKind::Hex => SearchKind::Ascii,
            SearchKind::Ascii => SearchKind::Hex,
        };
        self.mode = SearchMode::Input(self.kind);
    }

    /// The byte pattern the current query denotes.
    pub fn parse_pattern(&self) -> (r: Vec<u8>)
        ensures
            r@ == self.spec_pattern(),
    {
        match self.kind {
            SearchKind::Hex => parse_hex_string(self.query.as_str()),
            SearchKind::Ascii => self.query.as_str().as_bytes_vec(),
        }
    }

    /// The length of the byte pattern the current query denotes.
    pub fn pattern_len(&self) -> (r: usize)
        ensures
            r == self.spec_pattern().len(),
    {
        self.parse_pattern().len()
    }

    /// Execute the search against the diff byte data: recompute the matches
    /// wholesale, select the first one if any, and return to normal mode.
    pub fn submit(&mut self, diffs: &[(usize, u8)])
        ensures
            final(self).mode == SearchMode::Normal,
            final(self).query == old(self).query,
            final(self).kind == old(self).kind,
            final(self).matches@ == spec_find_matches(diff_bytes(diffs@), old(
                self,
            ).spec_pattern()),
            final(self).current_match == (if final(self).matches@.len() == 0 {
                None::<usize>
            } else {
                Some(0usize)
            }),
            final(self).wf(),
    {
        self.mode = SearchMode::Normal;
        let dn = diffs.len();
        let pattern = self.parse_pattern();
        self.matches = find_matches(diffs, pattern.as_slice());
        self.current_match = if self.matches.len() == 0 {
            None
        } else {
            Some(0)
        };
        proof {
            assert(diff_bytes(diffs@).len() == dn);
            lemma_find_matches_characterization(diff_bytes(diffs@), pattern@);
        }
    }

    /// Advance to the next match, wrapping around past the last one; no-op
    /// when there are no matches or no current match.
    pub fn next_match(&mut self)
        ensures
            final(self).mode == old(self).mode,
            final(self).query == old(self).query,
            final(self).kind == old(self).kind,
            final(self).matches == old(self).matches,
            final(self).current_match == (match old(self).current_match {
                Some(idx) => if old(self).matches@.len() == 0 {
                    Some(idx)
                } else {
                    let r = (idx as int) % (old(self).matches@.len() as int);
                    if r + 1 < old(self).matches@.len() {
                        Some((r + 1) as usize)
                    } else {
                        Some(0usize)
                    }
                },
                None => None::<usize>,
            }),
            old(self).wf() ==> final(self).wf(),
    {
        let n = self.matches.len();
        if n == 0 {
            return;
        }
        if let Some(idx) = self.current_match {
            let r = idx % n;
            self.current_match = Some(
                if r + 1 < n {
                    r + 1
                } else {
                    0
                },
            );
        }
    }

    /// Move to the previous match, wrapping around before the first one;
    /// no-op when there are no matches or no current match.
    pub fn prev_match(&mut self)
        ensures
            final(self).mode == old(self).mode,
            final(self).query == old(self).query,
            final(self).kind == old(self).kind,
            final(self).matches == old(self).matches,
            final(self).current_match == (match old(self).current_match {
                Some(idx) => if idx > 0 {
                    Some((idx - 1) as usize)
                } else if old(self).matches@.len() > 0 {
                    Some((old(self).matches@.len() - 1) as usize)
                } else {
                    Some(idx)
                },
                None => None::<usize>,
            }),
            old(self).wf() ==> final(self).wf(),
    {
        if let Some(idx) = self.current_match {
            if idx > 0 {
                self.current_match = Some(idx - 1);
            } else if self.matches.len() > 0 {
                self.current_match = Some(self.matches.len() - 1);
            }
        }
    }

    /// The diff-list index of the current match, if any.
    pub fn current_match_pos(&self) -> (r: Option<usize>)
        ensures
            r == self.spec_current_match_pos(),
    {
        match self.current_match {
            Some(idx) => if idx < self.matches.len() {
                Some(self.matches[idx])
            } else {
                None
            },
            None => None,
        }
    }
}

/// The diff-list indices covered by the spans of the first `j` matches, plus
/// the first `k` positions of match `j`'s span.
spec fn span_positions_partial(ms: Seq<usize>, plen: int, j: int, k: int) -> Set<usize> {
    Set::new(
        |p: usize|
            (exists|t: int| 0 <= t < j && #[trigger] ms[t] <= p < ms[t] + plen) || (j < ms.len()
                && ms[j] <= p < ms[j] + k),
    )
}

impl SearchState {
    /// Set of diff-list indices covered by the full span of every match,
    /// used for dimmed highlighting.
    pub fn all_match_positions(&self) -> (r: HashSet<usize>)
        ensures
            r@ == self.spec_all_match_positions(),
    {
        let ghost ms = self.matches@;
        let plen = self.pattern_len();
        let mut set: HashSet<usize> = HashSet::new();
        let nm = self.matches.len();
        let mut j: usize = 0;
        proof {
            assert(set@ =~= span_positions_partial(ms, plen as int, 0, 0));
        }
        while j < nm
            invariant
                nm == ms.len(),
                ms == self.matches@,
                j <= nm,
                plen == self.spec_pattern().len(),
                set@ == span_positions_partial(ms, plen as int, j as int, 0),
            decreases nm - j,
        {
            let m = self.matches[j];
            let mut k: usize = 0;
            while k < plen
                invariant
                    nm == ms.len(),
                    ms == self.matches@,
                    j < nm,
                    m == ms[j as int],
                    plen == self.spec_pattern().len(),
                    k <= plen,
                    set@ == span_positions_partial(ms, plen as int, j as int, k as int),
                decreases plen - k,
            {
                match m.checked_add(k) {
                    Some(p) => {
                        set.insert(p);
                        proof {
                            assert(set@ =~= span_positions_partial(
                                ms,
                                plen as int,
                                j as int,
                                k + 1 as int,
                            ));
                        }
                    },
                    None => {
                        proof {
                            assert(set@ =~= span_positions_partial(
                                ms,
                                plen as int,
                                j as int,
                                k + 1 as int,
                            ));
                        }
                    },
                }
                k = k + 1;
            }
            proof {
                assert forall|p: usize|
                    span_positions_partial(ms, plen as int, j + 1 as int, 0).contains(
                        p,
                    ) implies span_positions_partial(ms, plen as int, j as int, plen as int).contains(
                    p,
                ) by {
                    let t = choose|t: int| 0 <= t < j + 1 && #[trigger] ms[t] <= p < ms[t] + plen;
                    if t < j {
                        assert(span_positions_partial(ms, plen as int, j as int, plen as int).contains(
                            p,
                        ));
                    }
                }
                assert(set@ =~= span_positions_partial(ms, plen as int, j + 1 as int, 0));
            }
            j = j + 1;
        }
        proof {
            assert(set@ =~= self.spec_all_match_positions());
        }
        set
    }

    /// Set of diff-list indices covered by only the current match, used for
    /// bright highlighting; always a subset of every match's positions.
    pub fn current_match_set(&self) -> (r: HashSet<usize>)
        ensures
            r@ == self.spec_current_match_set(),
    {
        let plen = self.pattern_len();
        let mut set: HashSet<usize> = HashSet::new();
        match self.current_match_pos() {
            None => {
                proof {
                    assert(set@ =~= self.spec_current_match_set());
                }
                set
            },
            Some(start) => {
                let mut k: usize = 0;
                while k < plen
                    invariant
                        plen == self.spec_pattern().len(),
                        k <= plen,
                        self.spec_current_match_pos() == Some(start),
                        set@ == Set::new(|p: usize| start <= p < start + k as int),
                    decreases plen - k,
                {
                    match start.checked_add(k) {
                        Some(p) => {
                            set.insert(p);
                            proof {
                                assert(set@ =~= Set::new(
                                    |p: usize| start <= p < start + (k + 1) as int,
                                ));
                            }
                        },
                        None => {
                            proof {
                                assert(set@ =~= Set::new(
                                    |p: usize| start <= p < start + (k + 1) as int,
                                ));
                            }
                        },
                    }
                    k = k + 1;
                }
                proof {
                    assert(set@ =~= self.spec_current_match_set());
                }
                set
            },
        }
    }
}

/// The bright highlight never reaches outside the dimmed one: the positions
/// covered by the current match are a subset of the positions covered by all
/// matches.
pub proof fn lemma_current_match_subset(s: SearchState)
    requires
        s.wf(),
    ensures
        s.spec_current_match_set().subset_of(s.spec_all_match_positions()),
{
    match s.current_match {
        None => {
        },
        Some(idx) => {
            assert forall|p: usize|
                s.spec_current_match_set().contains(p) implies s.spec_all_match_positions().contains(
                p,
            ) by {
                assert(0 <= idx < s.matches@.len() && s.matches@[idx as int] <= p < s.matches@[
                    idx as int
                ] + s.spec_pattern().len());
            }
        },
    }
}

} // verus!
