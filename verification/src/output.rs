//! Parsers for the external tool's textual output: version extraction from
//! the `--version` banner and the per-line remote listing of
//! `remote list --raw`.
//!
//! Both parsers are stateless functions over the raw output text with fixed
//! grammars.  The remote parser is all-or-nothing: one malformed line makes
//! the whole parse come back empty, even if earlier lines were valid.

use vstd::prelude::*;
use crate::Remote;
use crate::RemoteView;
use crate::strutil::str_eq;

verus! {

/// The literal phrase that announces the tool's version in its banner.
pub open spec fn version_marker() -> Seq<char> {
    "Conan version "@
}

/// A character that may appear in a dotted numeric version token.
pub open spec fn is_version_char(c: char) -> bool {
    c == '.' || ('0' as u32 <= c as u32 && c as u32 <= '9' as u32)
}

/// The version pattern matches at position `i`: the marker phrase starts
/// there and at least one version character follows it.
pub open spec fn version_match_at(s: Seq<char>, i: int) -> bool {
    &&& 0 <= i
    &&& i + version_marker().len() + 1 <= s.len()
    &&& s.subrange(i, i + version_marker().len() as int) == version_marker()
    &&& is_version_char(s[i + version_marker().len() as int])
}

/// The end of the maximal run of version characters that starts at `j`.
pub open spec fn version_run_end(s: Seq<char>, j: int) -> int
    decreases s.len() - j,
{
    if j < s.len() && is_version_char(s[j]) {
        version_run_end(s, j + 1)
    } else {
        j
    }
}

/// The first position at or after `i` where the version pattern matches.
pub open spec fn first_version_match(s: Seq<char>, i: int) -> Option<int>
    decreases s.len() - i,
{
    if i + version_marker().len() + 1 > s.len() {
        None
    } else if version_match_at(s, i) {
        Some(i)
    } else {
        first_version_match(s, i + 1)
    }
}

/// The version token extracted from the banner: the maximal run of version
/// characters after the first occurrence of the marker phrase that is
/// followed by at least one such character; absence when no occurrence is.
pub open spec fn spec_version_of(s: Seq<char>) -> Option<Seq<char>> {
    match first_version_match(s, 0) {
        None => None,
        Some(i) => Some(
            s.subrange(
                i + version_marker().len() as int,
                version_run_end(s, i + version_marker().len() as int),
            ),
        ),
    }
}

/// Whether the version pattern matches `s` at position `i`.
fn version_matches_at(s: &str, i: usize, n: usize) -> (r: bool)
    requires
        n == s@.len(),
        i + version_marker().len() + 1 <= n,
    ensures
        r == version_match_at(s@, i as int),
{
    let marker = "Conan version ";
    proof {
        reveal_strlit("Conan version ");
    }
    let mlen = marker.unicode_len();
    let mut k: usize = 0;
    while k < mlen
        invariant
            mlen == version_marker().len(),
            marker@ == version_marker(),
            n == s@.len(),
            i + mlen + 1 <= n,
            k <= mlen,
            forall|q: int| 0 <= q < k ==> s@[i + q] == version_marker()[q],
        decreases mlen - k,
    {
        if s.get_char(i + k) != marker.get_char(k) {
            proof {
                let sub = s@.subrange(i as int, i + version_marker().len() as int);
                assert(sub[k as int] != version_marker()[k as int]);
            }
            return false;
        }
        k += 1;
    }
    proof {
        assert(s@.subrange(i as int, i + version_marker().len() as int) =~= version_marker());
    }
    let c = s.get_char(i + mlen);
    c == '.' || ('0' as u32 <= c as u32 && c as u32 <= '9' as u32)
}

/// Extracts the tool's version token from its `--version` banner, if the
/// banner holds one; tolerant of any surrounding text and line breaks.
pub fn parse_version_output(output: &str) -> (r: Option<String>)
    ensures
        match r {
            Some(v) => spec_version_of(output@) == Some(v@),
            None => spec_version_of(output@) is None,
        },
{
    proof {
        reveal_strlit("Conan version ");
    }
    let n = output.unicode_len();
    let mut i: usize = 0;
    while i < n && n - i >= 15
        invariant
            n == output@.len(),
            i <= n,
            version_marker().len() == 14,
            first_version_match(output@, 0) == first_version_match(output@, i as int),
        decreases n - i,
    {
        if version_matches_at(output, i, n) {
            let start = i + 14;
            let mut j: usize = start;
            loop
                invariant
                    n == output@.len(),
                    start <= j <= n,
                    version_run_end(output@, start as int) == version_run_end(output@, j as int),
                ensures
                    start <= j <= n,
                    version_run_end(output@, start as int) == j as int,
                decreases n - j,
            {
                if j == n {
                    break ;
                }
                let c = output.get_char(j);
                if !(c == '.' || ('0' as u32 <= c as u32 && c as u32 <= '9' as u32)) {
                    break ;
                }
                j += 1;
            }
            let token = output.substring_char(start, j);
            return Some(String::from_str(token));
        }
        i += 1;
    }
    proof {
        assert(first_version_match(output@, i as int) is None);
    }
    None
}

/// A space or tab, the separators inside one line of the remote listing.
pub open spec fn is_line_space(c: char) -> bool {
    c == ' ' || c == '\t'
}

/// A line with its trailing carriage return removed, as a line ending in
/// `\r\n` appears once split at the newline.
pub open spec fn strip_cr(l: Seq<char>) -> Seq<char> {
    if l.len() > 0 && l.last() == '\r' {
        l.drop_last()
    } else {
        l
    }
}

/// The lines of `s` split at newline characters, with `cur` the part of the
/// current line read so far: each `\r\n` or `\n` ends a line, and a final
/// line ending is optional.
pub open spec fn spec_lines_acc(s: Seq<char>, cur: Seq<char>) -> Seq<Seq<char>>
    decreases s.len(),
{
    if s.len() == 0 {
        if cur.len() == 0 {
            Seq::empty()
        } else {
            seq![cur]
        }
    } else if s[0] == '\n' {
        seq![strip_cr(cur)] + spec_lines_acc(s.drop_first(), Seq::empty())
    } else {
        spec_lines_acc(s.drop_first(), cur.push(s[0]))
    }
}

/// The lines of `s`.
pub open spec fn spec_lines(s: Seq<char>) -> Seq<Seq<char>> {
    spec_lines_acc(s, Seq::empty())
}

/// The whitespace-separated tokens of a line, with `cur` the part of the
/// current token read so far.
pub open spec fn spec_tokens_acc(s: Seq<char>, cur: Seq<char>) -> Seq<Seq<char>>
    decreases s.len(),
{
    if s.len() == 0 {
        if cur.len() == 0 {
            Seq::empty()
        } else {
            seq![cur]
        }
    } else if is_line_space(s[0]) {
        (if cur.len() == 0 {
            Seq::empty()
        } else {
            seq![cur]
        }) + spec_tokens_acc(s.drop_first(), Seq::empty())
    } else {
        spec_tokens_acc(s.drop_first(), cur.push(s[0]))
    }
}

/// The whitespace-separated tokens of a line.
pub open spec fn spec_tokens(l: Seq<char>) -> Seq<Seq<char>> {
    spec_tokens_acc(l, Seq::empty())
}

/// One line of the remote listing, under the grammar
/// `<name> <url> <True|False>`: exactly three tokens, the third the literal
/// `True` or `False`.
pub open spec fn spec_parse_remote_line(l: Seq<char>) -> Option<RemoteView> {
    let t = spec_tokens(l);
    if t.len() == 3 && (t[2] == "True"@ || t[2] == "False"@) {
        Some(RemoteView { name: t[0], url: t[1], verify_ssl: Some(t[2] == "True"@) })
    } else {
        None
    }
}

/// The remote records of a whole listing, one per line and in line order;
/// absence as soon as any single line breaks the grammar.
pub open spec fn spec_parse_remotes(s: Seq<char>) -> Option<Seq<RemoteView>> {
    let ls = spec_lines(s);
    if forall|i: int| 0 <= i < ls.len() ==> spec_parse_remote_line(#[trigger] ls[i]) is Some {
        Some(Seq::new(ls.len(), |i: int| spec_parse_remote_line(ls[i])->0))
    } else {
        None
    }
}

/// Splits text into lines, as [`spec_lines`] states.
fn split_lines(s: &str) -> (r: Vec<String>)
    ensures
        r.deep_view() == spec_lines(s@),
{
    let n = s.unicode_len();
    let mut result: Vec<String> = Vec::new();
    let mut start: usize = 0;
    let mut i: usize = 0;
    proof {
        assert(s@.subrange(0, n as int) =~= s@);
        assert(s@.subrange(0, 0) =~= Seq::<char>::empty());
        assert(result.deep_view() + spec_lines_acc(s@, Seq::empty()) =~= spec_lines(s@));
    }
    while i < n
        invariant
            n == s@.len(),
            start <= i <= n,
            result.deep_view() + spec_lines_acc(
                s@.subrange(i as int, n as int),
                s@.subrange(start as int, i as int),
            ) =~= spec_lines(s@),
        decreases n - i,
    {
        let ghost rem = s@.subrange(i as int, n as int);
        let ghost cur = s@.subrange(start as int, i as int);
        let c = s.get_char(i);
        proof {
            assert(rem[0] == s@[i as int]);
            assert(rem.drop_first() =~= s@.subrange(i as int + 1, n as int));
        }
        if c == '\n' {
            let line = if i > start && s.get_char(i - 1) == '\r' {
                s.substring_char(start, i - 1)
            } else {
                s.substring_char(start, i)
            };
            proof {
                if i > start && s@[i as int - 1] == '\r' {
                    assert(cur.len() > 0 && cur.last() == '\r');
                    assert(line@ =~= strip_cr(cur));
                } else {
                    assert(line@ =~= strip_cr(cur));
                }
                assert(spec_lines_acc(rem, cur) == seq![strip_cr(cur)] + spec_lines_acc(
                    rem.drop_first(),
                    Seq::empty(),
                ));
            }
            let ghost pre_dv = result.deep_view();
            result.push(String::from_str(line));
            proof {
                let rest = spec_lines_acc(rem.drop_first(), Seq::empty());
                assert(result.deep_view() =~= pre_dv.push(strip_cr(cur)));
                assert(pre_dv.push(strip_cr(cur)) + rest =~= pre_dv + (seq![strip_cr(cur)]
                    + rest));
                assert(s@.subrange(i as int + 1, i as int + 1) =~= Seq::<char>::empty());
                assert(result.deep_view() + spec_lines_acc(
                    s@.subrange(i as int + 1, n as int),
                    s@.subrange(i as int + 1, i as int + 1),
                ) =~= spec_lines(s@));
            }
            start = i + 1;
        } else {
            proof {
                assert(cur.push(s@[i as int]) =~= s@.subrange(start as int, i as int + 1));
                assert(spec_lines_acc(rem, cur) == spec_lines_acc(
                    rem.drop_first(),
                    s@.subrange(start as int, i as int + 1),
                ));
            }
        }
        i += 1;
    }
    if start < n {
        let line = s.substring_char(start, n);
        result.push(String::from_str(line));
    }
    proof {
        assert(s@.subrange(n as int, n as int).len() == 0);
        if start < n {
            assert(spec_lines_acc(
                s@.subrange(n as int, n as int),
                s@.subrange(start as int, n as int),
            ) == seq![s@.subrange(start as int, n as int)]);
        } else {
            assert(spec_lines_acc(
                s@.subrange(n as int, n as int),
                s@.subrange(start as int, n as int),
            ) =~= Seq::<Seq<char>>::empty());
        }
        assert(result.deep_view() =~= spec_lines(s@));
    }
    result
}

/// Splits one line into whitespace-separated tokens, as [`spec_tokens`]
/// states.
fn split_tokens(l: &str) -> (r: Vec<String>)
    ensures
        r.deep_view() == spec_tokens(l@),
{
    let n = l.unicode_len();
    let mut result: Vec<String> = Vec::new();
    let mut start: usize = 0;
    let mut i: usize = 0;
    proof {
        assert(l@.subrange(0, n as int) =~= l@);
        assert(l@.subrange(0, 0) =~= Seq::<char>::empty());
        assert(result.deep_view() + spec_tokens_acc(l@, Seq::empty()) =~= spec_tokens(l@));
    }
    while i < n
        invariant
            n == l@.len(),
            start <= i <= n,
            result.deep_view() + spec_tokens_acc(
                l@.subrange(i as int, n as int),
                l@.subrange(start as int, i as int),
            ) =~= spec_tokens(l@),
        decreases n - i,
    {
        let ghost rem = l@.subrange(i as int, n as int);
        let ghost cur = l@.subrange(start as int, i as int);
        let c = l.get_char(i);
        proof {
            assert(rem[0] == l@[i as int]);
            assert(rem.drop_first() =~= l@.subrange(i as int + 1, n as int));
        }
        if c == ' ' || c == '\t' {
            let ghost pre_dv = result.deep_view();
            if i > start {
                let token = l.substring_char(start, i);
                proof {
                    assert(token@ =~= cur);
                }
                result.push(token.to_owned());
            }
            proof {
                let rest = spec_tokens_acc(rem.drop_first(), Seq::empty());
                assert(spec_tokens_acc(rem, cur) == (if cur.len() == 0 {
                    Seq::<Seq<char>>::empty()
                } else {
                    seq![cur]
                }) + rest);
                if i > start {
                    assert(cur.len() > 0);
                    assert(result.deep_view() =~= pre_dv.push(cur));
                    assert(pre_dv.push(cur) + rest =~= pre_dv + (seq![cur] + rest));
                } else {
                    assert(cur.len() == 0);
                    assert(pre_dv + rest =~= pre_dv + (Seq::<Seq<char>>::empty() + rest));
                }
                assert(l@.subrange(i as int + 1, i as int + 1) =~= Seq::<char>::empty());
                assert(result.deep_view() + spec_tokens_acc(
                    l@.subrange(i as int + 1, n as int),
                    l@.subrange(i as int + 1, i as int + 1),
                ) =~= spec_tokens(l@));
            }
            start = i + 1;
        } else {
            proof {
                assert(cur.push(l@[i as int]) =~= l@.subrange(start as int, i as int + 1));
                assert(spec_tokens_acc(rem, cur) == spec_tokens_acc(
                    rem.drop_first(),
                    l@.subrange(start as int, i as int + 1),
                ));
            }
        }
        i += 1;
    }
    if start < n {
        let token = l.substring_char(start, n);
        result.push(token.to_owned());
    }
    proof {
        if start < n {
            assert(spec_tokens_acc(
                l@.subrange(n as int, n as int),
                l@.subrange(start as int, n as int),
            ) == seq![l@.subrange(start as int, n as int)]);
        } else {
            assert(spec_tokens_acc(
                l@.subrange(n as int, n as int),
                l@.subrange(start as int, n as int),
            ) =~= Seq::<Seq<char>>::empty());
        }
        assert(result.deep_view() =~= spec_tokens(l@));
    }
    result
}

/// Parses the raw remote listing into remote records, one per line and in
/// line order.  The parse is all-or-nothing: a single malformed line makes
/// the whole result absent, even when earlier lines were valid.
pub fn parse_remote_list_output(output: &str) -> (r: Option<Vec<Remote>>)
    ensures
        match r {
            Some(v) => spec_parse_remotes(output@) == Some(v.deep_view()),
            None => spec_parse_remotes(output@) is None,
        },
{
    let lines = split_lines(output);
    let mut result: Vec<Remote> = Vec::new();
    let ln = lines.len();
    let mut k: usize = 0;
    while k < ln
        invariant
            ln == lines@.len(),
            k <= ln,
            lines.deep_view() == spec_lines(output@),
            result@.len() == k,
            forall|q: int|
                0 <= q < k ==> spec_parse_remote_line(#[trigger] spec_lines(output@)[q]) is Some,
            forall|q: int|
                0 <= q < k ==> #[trigger] result.deep_view()[q] == spec_parse_remote_line(
                    spec_lines(output@)[q],
                )->0,
        decreases ln - k,
    {
        let tokens = split_tokens(lines[k].as_str());
        if tokens.len() != 3 {
            proof {
                assert(spec_parse_remote_line(spec_lines(output@)[k as int]) is None);
            }
            return None;
        }
        let is_true = str_eq(tokens[2].as_str(), "True");
        let is_false = str_eq(tokens[2].as_str(), "False");
        if !is_true && !is_false {
            proof {
                assert(spec_parse_remote_line(spec_lines(output@)[k as int]) is None);
            }
            return None;
        }
        let name = tokens[0].clone();
        let url = tokens[1].clone();
        let ghost pre_dv = result.deep_view();
        proof {
            let ls = spec_lines(output@);
            let t = spec_tokens(ls[k as int]);
            assert(lines@[k as int]@ == lines.deep_view()[k as int]);
            assert(tokens.deep_view()[0] == t[0]);
            assert(tokens.deep_view()[1] == t[1]);
            assert(tokens.deep_view()[2] == t[2]);
            assert(tokens@[0]@ == tokens.deep_view()[0]);
            assert(tokens@[1]@ == tokens.deep_view()[1]);
            assert(tokens@[2]@ == tokens.deep_view()[2]);
        }
        result.push(Remote { name, url, verify_ssl: Some(is_true) });
        proof {
            let ls = spec_lines(output@);
            let rv = spec_parse_remote_line(ls[k as int])->0;
            assert(result.deep_view() =~= pre_dv.push(rv));
        }
        k += 1;
    }
    proof {
        let ls = spec_lines(output@);
        assert(spec_parse_remotes(output@) is Some);
        assert(result.deep_view() =~= Seq::new(ls.len(), |i: int| spec_parse_remote_line(ls[i])->0));
    }
    Some(result)
}

} // verus!
