use vstd::prelude::*;
use crate::text::{chars_of, range_eq_str};
use regex::bytes::Regex;

verus! {

/// Whether a character has the Unicode `White_Space` property, as `char::is_whitespace` says.
pub uninterp spec fn unicode_white_space(c: char) -> bool;

/// `char::is_whitespace`: the contract says only that the answer is whether the character
/// has the Unicode `White_Space` property, which it names without listing.
#[verifier::external_body]
fn char_is_whitespace(c: char) -> (b: bool)
    ensures
        b == unicode_white_space(c),
{
    c.is_whitespace()
}

/// The whitespace-separated tokens of `s`, as ranges of character indices.
pub open spec fn ws_token_ranges(s: Seq<char>) -> Seq<(int, int)>
    decreases s.len(),
{
    if s.len() == 0 {
        Seq::empty()
    } else {
        let prev = ws_token_ranges(s.drop_last());
        let i = s.len() - 1;
        if unicode_white_space(s[i]) {
            prev
        } else if i > 0 && !unicode_white_space(s[i - 1]) {
            prev.update(prev.len() - 1, (prev.last().0, i + 1))
        } else {
            prev.push((i, i + 1))
        }
    }
}

/// The regular expression for one token of a byte pattern: `?` matches any byte, any
/// other token is a byte in hexadecimal.
pub open spec fn token_regex(t: Seq<char>) -> Seq<char> {
    if t == "?"@ {
        "."@
    } else {
        "\\x"@ + t
    }
}

/// The regular expressions of the tokens in `ranges`, one after the other.
pub open spec fn tokens_regex(s: Seq<char>, ranges: Seq<(int, int)>) -> Seq<char>
    decreases ranges.len(),
{
    if ranges.len() == 0 {
        Seq::empty()
    } else {
        tokens_regex(s, ranges.drop_last()) + token_regex(
            s.subrange(ranges.last().0, ranges.last().1),
        )
    }
}

/// The regular expression for a byte pattern such as `55 8B EC ? 6A`: byte-oriented
/// (`(?s-u)`: `.` matches every byte, no Unicode), one piece per token.
pub open spec fn spec_regex_source(pattern: Seq<char>) -> Seq<char> {
    "(?s-u)"@ + tokens_regex(pattern, ws_token_ranges(pattern))
}

/// Token ranges lie inside the string, and a string whose last character is not white
/// space has a last token that ends with it.
pub proof fn lemma_ws_token_ranges(s: Seq<char>)
    ensures
        forall|k: int|
            0 <= k < ws_token_ranges(s).len() ==> 0 <= #[trigger] ws_token_ranges(s)[k].0
                < ws_token_ranges(s)[k].1 <= s.len(),
        s.len() > 0 && !unicode_white_space(s.last()) ==> ws_token_ranges(s).len() > 0
            && ws_token_ranges(s).last().1 == s.len(),
    decreases s.len(),
{
    if s.len() > 0 {
        lemma_ws_token_ranges(s.drop_last());
        let prev = ws_token_ranges(s.drop_last());
        let i = s.len() - 1;
        if i > 0 && !unicode_white_space(s[i - 1]) {
            assert(s.drop_last().last() == s[i - 1]);
        }
    }
}

fn token_ranges(v: &Vec<char>) -> (r: Vec<(usize, usize)>)
    ensures
        r@.map_values(|p: (usize, usize)| (p.0 as int, p.1 as int)) == ws_token_ranges(v@),
        forall|k: int| 0 <= k < r.len() ==> #[trigger] r@[k].0 < r@[k].1 <= v.len(),
{
    let n = v.len();
    let mut toks: Vec<(usize, usize)> = Vec::new();
    let mut i: usize = 0;
    let mut prev_ws = true;
    while i < n
        invariant
            n == v.len(),
            i <= n,
            toks@.map_values(|p: (usize, usize)| (p.0 as int, p.1 as int)) == ws_token_ranges(
                v@.take(i as int),
            ),
            forall|k: int| 0 <= k < toks.len() ==> (#[trigger] toks@[k]).0 < toks@[k].1 && toks@[k].1 <= i,
            i > 0 ==> prev_ws == unicode_white_space(v@[i - 1]),
            i == 0 ==> prev_ws,
        decreases n - i,
    {
        let ghost before = v@.take(i as int);
        let ghost after = v@.take(i + 1);
        assert(after.drop_last() =~= before);
        proof {
            lemma_ws_token_ranges(before);
            lemma_ws_token_ranges(after);
        }
        let ws = char_is_whitespace(v[i]);
        if !ws {
            if i > 0 && !prev_ws {
                let last = toks.len() - 1;
                let start = toks[last].0;
                assert(before.last() == v@[i - 1]);
                toks.set(last, (start, i + 1));
            } else {
                toks.push((i, i + 1));
            }
        }
        proof {
            assert(toks@.map_values(|p: (usize, usize)| (p.0 as int, p.1 as int)) =~= ws_token_ranges(after));
            assert forall|k: int| 0 <= k < toks.len() implies (#[trigger] toks@[k]).0 < toks@[k].1 && toks@[k].1 <= i + 1 by {
                let m = toks@.map_values(|p: (usize, usize)| (p.0 as int, p.1 as int));
                assert(m[k] == (toks@[k].0 as int, toks@[k].1 as int));
                assert(0 <= ws_token_ranges(after)[k].0 < ws_token_ranges(after)[k].1 <= after.len());
            }
        }
        prev_ws = ws;
        i = i + 1;
    }
    assert(v@.take(n as int) =~= v@);
    toks
}

/// Turns a byte pattern of space-separated hexadecimal bytes and `?` wildcards into the
/// source of a byte-oriented regular expression, e.g. `55 ? EC` into `(?s-u)\x55.\xEC`.
pub fn pattern_regex_source(pattern: &str) -> (r: String)
    ensures
        r@ == spec_regex_source(pattern@),
{
    let v = chars_of(pattern);
    let toks = token_ranges(&v);
    let ghost ranges = ws_token_ranges(pattern@);
    let mut res = String::from_str("(?s-u)");
    let mut k: usize = 0;
    while k < toks.len()
        invariant
            v@ == pattern@,
            ranges == ws_token_ranges(pattern@),
            toks@.map_values(|p: (usize, usize)| (p.0 as int, p.1 as int)) == ranges,
            forall|j: int| 0 <= j < toks.len() ==> #[trigger] toks@[j].0 < toks@[j].1 <= v.len(),
            k <= toks.len(),
            res@ == "(?s-u)"@ + tokens_regex(pattern@, ranges.take(k as int)),
        decreases toks.len() - k,
    {
        let (a, b) = toks[k];
        assert(ranges[k as int] == (a as int, b as int));
        assert(ranges.take(k + 1).drop_last() =~= ranges.take(k as int));
        if range_eq_str(&v, a, b, "?") {
            res.append(".");
        } else {
            res.append("\\x");
            res.append(pattern.substring_char(a, b));
        }
        proof {
            assert(res@ =~= "(?s-u)"@ + tokens_regex(pattern@, ranges.take(k + 1)));
        }
        k = k + 1;
    }
    assert(ranges.take(toks.len() as int) =~= ranges);
    res
}


/// `regex::bytes::Regex`, carried through as an opaque value.
#[verifier::external_type_specification]
#[verifier::external_body]
pub struct ExRegex(regex::bytes::Regex);

/// `regex::Error`, carried through as an opaque value.
#[verifier::external_type_specification]
#[verifier::external_body]
pub struct ExRegexError(regex::Error);

/// Whether `regex::bytes::Regex::new` accepts this source (valid syntax, within the
/// default size limit).
pub uninterp spec fn regex_compiles(source: Seq<char>) -> bool;

/// Where the leftmost-first match of the regular expression with this source begins in
/// the haystack, as `regex::bytes::Regex::find` reports it; `None` when nothing matches.
pub uninterp spec fn regex_first_match_start(source: Seq<char>, haystack: Seq<u8>) -> Option<int>;

/// A compiled byte pattern together with the source it was compiled from.
pub struct BytesPattern {
    source: String,
    re: Regex,
}

impl BytesPattern {
    /// The source of the regular expression.
    pub closed spec fn source_view(&self) -> Seq<char> {
        self.source@
    }

    pub fn source(&self) -> (s: &String)
        ensures
            s@ == self.source_view(),
    {
        &self.source
    }

    /// Where the pattern first matches in `haystack`, if anywhere.
    pub fn find_start(&self, haystack: &[u8]) -> (r: Option<usize>)
        ensures
            match r {
                Some(i) => regex_first_match_start(self.source_view(), haystack@) == Some(i as int)
                    && i <= haystack@.len(),
                None => regex_first_match_start(self.source_view(), haystack@) is None,
            },
    {
        find_match_start(self, haystack)
    }
}

/// `regex::bytes::Regex::new`: succeeds exactly on the sources the crate accepts; the
/// compiled expression is kept with its source.
#[verifier::external_body]
fn compile_bytes_regex(source: String) -> (r: Result<BytesPattern, regex::Error>)
    ensures
        r is Ok <==> regex_compiles(source@),
        r matches Ok(p) ==> p.source_view() == source@,
{
    match Regex::new(&source) {
        Ok(re) => Ok(BytesPattern { source, re }),
        Err(e) => Err(e),
    }
}

/// `regex::bytes::Regex::find` followed by `Match::start`: the start of the leftmost-first
/// match, which lies within the haystack.
#[verifier::external_body]
fn find_match_start(pattern: &BytesPattern, haystack: &[u8]) -> (r: Option<usize>)
    ensures
        match r {
            Some(i) => regex_first_match_start(pattern.source_view(), haystack@) == Some(i as int)
                && i <= haystack@.len(),
            None => regex_first_match_start(pattern.source_view(), haystack@) is None,
        },
{
    match pattern.re.find(haystack) {
        Some(m) => Some(m.start()),
        None => None,
    }
}

/// Why a byte pattern could not be used.
#[derive(Clone, Copy, Debug, PartialEq, Eq, Structural)]
pub enum PatternError {
    /// The regular expression made of the pattern was rejected.
    InvalidRegex,
}

/// Compiles a byte pattern such as `55 8B EC ? 6A` into a byte-oriented regular expression.
pub fn regex_from_str(pattern: &str) -> (r: Result<BytesPattern, PatternError>)
    ensures
        r is Ok <==> regex_compiles(spec_regex_source(pattern@)),
        r matches Ok(p) ==> p.source_view() == spec_regex_source(pattern@),
        r matches Err(e) ==> e == PatternError::InvalidRegex,
{
    let source = pattern_regex_source(pattern);
    match compile_bytes_regex(source) {
        Ok(p) => Ok(p),
        Err(_) => Err(PatternError::InvalidRegex),
    }
}

/// Offset of the first place in `bytes` that a byte pattern matches; `None` when the
/// pattern does not compile or does not match.
pub fn find_pattern_offset(bytes: &[u8], pattern: &str) -> (r: Option<usize>)
    ensures
        ({
            let src = spec_regex_source(pattern@);
            match r {
                Some(i) => regex_compiles(src) && regex_first_match_start(src, bytes@) == Some(i as int)
                    && i <= bytes@.len(),
                None => !regex_compiles(src) || regex_first_match_start(src, bytes@) is None,
            }
        }),
{
    match regex_from_str(pattern) {
        Ok(p) => p.find_start(bytes),
        Err(_) => None,
    }
}

} // verus!
