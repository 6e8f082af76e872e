//! Parsing of the bare request line.
//!
//! The server reads one line from the client and splits it on whitespace;
//! the first token is the method, the second the path. A line with fewer
//! than two tokens is a malformed request.

use vstd::prelude::*;
use crate::error::ServerError;

verus! {

/// The characters on which the request line is split into tokens: the
/// Unicode White_Space set.
pub open spec fn is_space(c: char) -> bool {
    c == '\u{9}' || c == '\u{a}' || c == '\u{b}' || c == '\u{c}' || c == '\u{d}' || c == ' '
        || c == '\u{85}' || c == '\u{a0}' || c == '\u{1680}' || ('\u{2000}' <= c && c
        <= '\u{200a}') || c == '\u{2028}' || c == '\u{2029}' || c == '\u{202f}' || c == '\u{205f}'
        || c == '\u{3000}'
}

/// The index of the first newline in `s` at or after `i`, or `s.len()` if
/// there is none: the request line is everything before it.
pub open spec fn line_end(s: Seq<char>, i: int) -> int
    recommends
        0 <= i <= s.len(),
    decreases s.len() - i,
{
    if i < 0 || i >= s.len() {
        s.len() as int
    } else if s[i] == '\n' {
        i
    } else {
        line_end(s, i + 1)
    }
}

/// The first index at or after `i` and below `end` that holds a
/// non-whitespace character, or `end` if every remaining character is
/// whitespace: where the next token starts.
pub open spec fn skip_spaces(s: Seq<char>, i: int, end: int) -> int
    recommends
        0 <= i,
        end <= s.len(),
    decreases end - i,
{
    if i < 0 || i >= end {
        end
    } else if is_space(s[i]) {
        skip_spaces(s, i + 1, end)
    } else {
        i
    }
}

/// The first index at or after `i` and below `end` that holds a whitespace
/// character, or `end` if there is none: where the token starting at `i` ends.
pub open spec fn token_end(s: Seq<char>, i: int, end: int) -> int
    recommends
        0 <= i,
        end <= s.len(),
    decreases end - i,
{
    if i < 0 || i >= end {
        end
    } else if is_space(s[i]) {
        i
    } else {
        token_end(s, i + 1, end)
    }
}

/// What parsing a request returns, stated over the text alone: the first two
/// whitespace-delimited tokens of the first line, or nothing if that line
/// has fewer than two.
pub open spec fn spec_parse(s: Seq<char>) -> Option<(Seq<char>, Seq<char>)> {
    let end = line_end(s, 0);
    let m0 = skip_spaces(s, 0, end);
    let m1 = token_end(s, m0, end);
    let p0 = skip_spaces(s, m1, end);
    let p1 = token_end(s, p0, end);
    if m0 == end || p0 == end {
        None
    } else {
        Some((s.subrange(m0, m1), s.subrange(p0, p1)))
    }
}

fn is_space_exec(c: char) -> (r: bool)
    ensures
        r == is_space(c),
{
    c == '\u{9}' || c == '\u{a}' || c == '\u{b}' || c == '\u{c}' || c == '\u{d}' || c == ' '
        || c == '\u{85}' || c == '\u{a0}' || c == '\u{1680}' || ('\u{2000}' <= c && c
        <= '\u{200a}') || c == '\u{2028}' || c == '\u{2029}' || c == '\u{202f}' || c == '\u{205f}'
        || c == '\u{3000}'
}

fn find_line_end(s: &str, n: usize) -> (r: usize)
    requires
        n == s@.len(),
    ensures
        r <= n,
        r as int == line_end(s@, 0),
{
    let mut i: usize = 0;
    while i < n && s.get_char(i) != '\n'
        invariant
            n == s@.len(),
            i <= n,
            line_end(s@, 0) == line_end(s@, i as int),
        decreases n - i,
    {
        proof {
            assert(line_end(s@, i as int) == line_end(s@, i as int + 1));
        }
        i = i + 1;
    }
    proof {
        if i == n {
            assert(line_end(s@, i as int) == n as int);
        }
    }
    i
}

fn skip_spaces_exec(s: &str, from: usize, end: usize) -> (r: usize)
    requires
        from <= end,
        end <= s@.len(),
    ensures
        from <= r <= end,
        r as int == skip_spaces(s@, from as int, end as int),
{
    let mut i: usize = from;
    while i < end && is_space_exec(s.get_char(i))
        invariant
            from <= i <= end,
            end <= s@.len(),
            skip_spaces(s@, from as int, end as int) == skip_spaces(s@, i as int, end as int),
        decreases end - i,
    {
        proof {
            assert(skip_spaces(s@, i as int, end as int) == skip_spaces(
                s@,
                i as int + 1,
                end as int,
            ));
        }
        i = i + 1;
    }
    proof {
        if i == end {
            assert(skip_spaces(s@, i as int, end as int) == end as int);
        }
    }
    i
}

fn token_end_exec(s: &str, from: usize, end: usize) -> (r: usize)
    requires
        from <= end,
        end <= s@.len(),
    ensures
        from <= r <= end,
        r as int == token_end(s@, from as int, end as int),
{
    let mut i: usize = from;
    while i < end && !is_space_exec(s.get_char(i))
        invariant
            from <= i <= end,
            end <= s@.len(),
            token_end(s@, from as int, end as int) == token_end(s@, i as int, end as int),
        decreases end - i,
    {
        proof {
            assert(token_end(s@, i as int, end as int) == token_end(s@, i as int + 1, end as int));
        }
        i = i + 1;
    }
    proof {
        if i == end {
            assert(token_end(s@, i as int, end as int) == end as int);
        }
    }
    i
}

/// Splits the request text into its method and path tokens.
///
/// Only the first line of the text is considered. The method is its first
/// whitespace-delimited token and the path its second; any further tokens
/// (such as the protocol version) are ignored. A line with fewer than two
/// tokens — including an empty request — is rejected as a bad request.
pub fn parse_request<'a>(request: &'a str) -> (r: Result<(&'a str, &'a str), ServerError>)
    ensures
        match r {
            Ok(t) => spec_parse(request@) == Some((t.0@, t.1@)),
            Err(e) => spec_parse(request@) is None && e == ServerError::BadRequest,
        },
{
    let n = request.unicode_len();
    let end = find_line_end(request, n);
    let m0 = skip_spaces_exec(request, 0, end);
    if m0 == end {
        return Err(ServerError::BadRequest);
    }
    let m1 = token_end_exec(request, m0, end);
    let p0 = skip_spaces_exec(request, m1, end);
    if p0 == end {
        return Err(ServerError::BadRequest);
    }
    let p1 = token_end_exec(request, p0, end);
    let method = request.substring_char(m0, m1);
    let path = request.substring_char(p0, p1);
    Ok((method, path))
}

} // verus!
