use vstd::prelude::*;

verus! {

/// `s` with every `:` replaced by `_` (a colon cannot stand in a Windows file name).
pub open spec fn without_colons(s: Seq<char>) -> Seq<char> {
    s.map_values(|c: char| if c == ':' { '_' } else { c })
}

/// Replacing the colons keeps the length and every other character, puts `_` where each
/// colon stood, and leaves no colon.
pub proof fn law_without_colons(s: Seq<char>)
    ensures
        without_colons(s).len() == s.len(),
        forall|i: int| 0 <= i < s.len() ==> (s[i] == ':' ==> #[trigger] without_colons(s)[i] == '_') && (s[i] != ':'
            ==> without_colons(s)[i] == s[i]),
        !without_colons(s).contains(':'),
{
    assert forall|i: int| 0 <= i < without_colons(s).len() implies #[trigger] without_colons(s)[i] != ':' by {}
}

/// The log file of a session: `<dir>/<timestamp>-dopamine.txt`, with the colons of the
/// whole path replaced by `_`.
pub fn log_file_path(dir: &str, timestamp: &str) -> (p: String)
    ensures
        p@ == without_colons(dir@ + "/"@ + timestamp@ + "-dopamine.txt"@),
{
    let mut raw = String::from_str(dir);
    raw.append("/");
    raw.append(timestamp);
    raw.append("-dopamine.txt");
    let n = raw.as_str().unicode_len();
    let mut out = String::new();
    let mut i: usize = 0;
    while i < n
        invariant
            n == raw@.len(),
            i <= n,
            out@ == without_colons(raw@.subrange(0, i as int)),
        decreases n - i,
    {
        let c = raw.as_str().get_char(i);
        if c == ':' {
            out.append("_");
        } else {
            out.append(raw.as_str().substring_char(i, i + 1));
        }
        proof {
            reveal_strlit("_");
            assert(raw@.subrange(0, i + 1) =~= raw@.subrange(0, i as int).push(c));
            assert(out@ =~= without_colons(raw@.subrange(0, i + 1)));
        }
        i = i + 1;
    }
    assert(raw@.subrange(0, n as int) =~= raw@);
    out
}

} // verus!
