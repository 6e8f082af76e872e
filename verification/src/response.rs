//! Routing of a parsed request and construction of the response bytes.
//!
//! Only `GET` is answered. `GET /` selects the success page, a `GET` of any
//! other path the not-found page; any other method is deliberately left
//! without a response. The response is the status line, a Content-Length
//! header equal to the body's byte length, a fixed text/html Content-Type
//! header, a blank line, and the body bytes unchanged.

use vstd::prelude::*;
use vstd::utf8::is_ascii_chars;
use crate::error::ServerError;
use crate::request::{parse_request, spec_parse};

verus! {

/// The resource served for a recognized request: the success page for
/// `GET /`, the not-found page for a `GET` of any other path.
#[derive(Clone, Copy, Debug, PartialEq, Eq, Structural)]
pub enum Resource {
    SuccessPage,
    NotFoundPage,
}

/// The status line sent for each resource, ending in CRLF.
pub open spec fn spec_status_line(r: Resource) -> Seq<char> {
    match r {
        Resource::SuccessPage => "HTTP/1.1 200 OK\r\n"@,
        Resource::NotFoundPage => "HTTP/1.1 404 NOT FOUND\r\n"@,
    }
}

/// The file that holds each resource's bytes, relative to the process's
/// working directory.
pub open spec fn spec_file_path(r: Resource) -> Seq<char> {
    match r {
        Resource::SuccessPage => "index.html"@,
        Resource::NotFoundPage => "404.html"@,
    }
}

impl Resource {
    /// The status line for this resource.
    pub fn status_line(&self) -> (r: &'static str)
        ensures
            r@ == spec_status_line(*self),
    {
        match self {
            Resource::SuccessPage => "HTTP/1.1 200 OK\r\n",
            Resource::NotFoundPage => "HTTP/1.1 404 NOT FOUND\r\n",
        }
    }

    /// The path of the file that holds this resource's bytes.
    pub fn file_path(&self) -> (r: &'static str)
        ensures
            r@ == spec_file_path(*self),
    {
        match self {
            Resource::SuccessPage => "index.html",
            Resource::NotFoundPage => "404.html",
        }
    }
}

/// The routing decision for a parsed request: which resource to serve, or
/// none at all for a method other than `GET` (an exact, case-sensitive
/// match) — the silent no-op the wire protocol prescribes.
pub open spec fn spec_plan(method: Seq<char>, path: Seq<char>) -> Option<Resource> {
    if method == "GET"@ {
        if path == "/"@ {
            Some(Resource::SuccessPage)
        } else {
            Some(Resource::NotFoundPage)
        }
    } else {
        None
    }
}

fn str_eq(a: &str, b: &str) -> (r: bool)
    ensures
        r == (a@ == b@),
{
    let n = a.unicode_len();
    let m = b.unicode_len();
    if n != m {
        return false;
    }
    let mut i: usize = 0;
    while i < n
        invariant
            n == a@.len(),
            n == b@.len(),
            i <= n,
            forall|j: int| 0 <= j < i ==> a@[j] == b@[j],
        decreases n - i,
    {
        if a.get_char(i) != b.get_char(i) {
            return false;
        }
        i = i + 1;
    }
    proof {
        assert(a@ =~= b@);
    }
    true
}

/// Decides how a parsed request is answered. `GET /` is answered with the
/// success page, a `GET` of any other path with the not-found page, and a
/// request of any other method with no response at all.
pub fn plan_response(method: &str, path: &str) -> (r: Option<Resource>)
    ensures
        r == spec_plan(method@, path@),
{
    if str_eq(method, "GET") {
        if str_eq(path, "/") {
            Some(Resource::SuccessPage)
        } else {
            Some(Resource::NotFoundPage)
        }
    } else {
        None
    }
}

/// The whole per-request decision, stated over the request text alone.
/// Empty text means the stream reached end-of-stream before yielding a
/// single byte: an I/O failure, not a malformed request. A non-empty line
/// with fewer than two tokens is a bad request; anything else is routed.
pub open spec fn spec_handle(s: Seq<char>) -> Result<Option<Resource>, ServerError> {
    if s.len() == 0 {
        Err(ServerError::Io)
    } else {
        match spec_parse(s) {
            Some(t) => Ok(spec_plan(t.0, t.1)),
            None => Err(ServerError::BadRequest),
        }
    }
}

/// Classifies an empty read, then parses the request line and routes it:
/// the decision core of the connection handler.
pub fn handle_request(request: &str) -> (r: Result<Option<Resource>, ServerError>)
    ensures
        r == spec_handle(request@),
{
    if request.is_empty() {
        return Err(ServerError::Io);
    }
    match parse_request(request) {
        Ok((method, path)) => Ok(plan_response(method, path)),
        Err(e) => Err(e),
    }
}

/// One decimal digit as a character.
pub open spec fn digit_char(d: nat) -> char
    recommends
        d < 10,
{
    if d == 0 {
        '0'
    } else if d == 1 {
        '1'
    } else if d == 2 {
        '2'
    } else if d == 3 {
        '3'
    } else if d == 4 {
        '4'
    } else if d == 5 {
        '5'
    } else if d == 6 {
        '6'
    } else if d == 7 {
        '7'
    } else if d == 8 {
        '8'
    } else {
        '9'
    }
}

/// The decimal numeral of `n`: most significant digit first, no leading
/// zeros (`0` itself is the single digit `0`).
pub open spec fn spec_dec(n: nat) -> Seq<char>
    decreases n,
{
    if n < 10 {
        seq![digit_char(n)]
    } else {
        spec_dec(n / 10).push(digit_char(n % 10))
    }
}

/// The response head for a resource whose body is `n` bytes long.
pub open spec fn spec_head(r: Resource, n: nat) -> Seq<char> {
    spec_status_line(r) + "Content-Length: "@ + spec_dec(n)
        + "\r\nContent-Type: text/html\r\n\r\n"@
}

/// The bytes of an ASCII text, one byte per character.
pub open spec fn ascii_bytes(s: Seq<char>) -> Seq<u8> {
    Seq::new(s.len(), |i: int| s[i] as u8)
}

/// The complete response for a resource with the given body bytes: the
/// head, ASCII-encoded, followed by the body unchanged.
pub open spec fn spec_response(r: Resource, body: Seq<u8>) -> Seq<u8> {
    ascii_bytes(spec_head(r, body.len())) + body
}

fn digit_str(d: usize) -> (r: &'static str)
    requires
        d < 10,
    ensures
        r@ == seq![digit_char(d as nat)],
{
    proof {
        reveal_strlit("0");
        reveal_strlit("1");
        reveal_strlit("2");
        reveal_strlit("3");
        reveal_strlit("4");
        reveal_strlit("5");
        reveal_strlit("6");
        reveal_strlit("7");
        reveal_strlit("8");
        reveal_strlit("9");
    }
    let r = match d {
        0 => "0",
        1 => "1",
        2 => "2",
        3 => "3",
        4 => "4",
        5 => "5",
        6 => "6",
        7 => "7",
        8 => "8",
        _ => "9",
    };
    proof {
        assert(r@ =~= seq![digit_char(d as nat)]);
    }
    r
}

fn push_dec(out: &mut String, n: usize)
    ensures
        final(out)@ == old(out)@ + spec_dec(n as nat),
    decreases n,
{
    if n < 10 {
        out.append(digit_str(n));
        proof {
            assert(final(out)@ =~= old(out)@ + spec_dec(n as nat));
        }
    } else {
        push_dec(out, n / 10);
        out.append(digit_str(n % 10));
        proof {
            assert((n / 10) as nat == n as nat / 10);
            assert((n % 10) as nat == n as nat % 10);
            assert(final(out)@ =~= old(out)@ + spec_dec(n as nat));
        }
    }
}

/// Builds the response head: the status line, a Content-Length header equal
/// to the body's byte length, and the fixed Content-Type header, ended by
/// the blank line before the body.
pub fn response_head(r: Resource, content_length: usize) -> (h: String)
    ensures
        h@ == spec_head(r, content_length as nat),
{
    let mut h = String::from_str(r.status_line());
    h.append("Content-Length: ");
    push_dec(&mut h, content_length);
    h.append("\r\nContent-Type: text/html\r\n\r\n");
    proof {
        assert(h@ =~= spec_head(r, content_length as nat));
    }
    h
}

proof fn lemma_dec_ascii(n: nat)
    ensures
        is_ascii_chars(spec_dec(n)),
    decreases n,
{
    if n < 10 {
    } else {
        lemma_dec_ascii(n / 10);
        assert forall|i: int| 0 <= i < spec_dec(n).len() implies '\0' <= #[trigger] spec_dec(
            n,
        )[i] <= '\u{7f}' by {
            if i < spec_dec(n / 10).len() {
                assert(spec_dec(n)[i] == spec_dec(n / 10)[i]);
            }
        }
    }
}

proof fn lemma_head_ascii(r: Resource, n: nat)
    ensures
        is_ascii_chars(spec_head(r, n)),
{
    reveal_strlit("HTTP/1.1 200 OK\r\n");
    reveal_strlit("HTTP/1.1 404 NOT FOUND\r\n");
    reveal_strlit("Content-Length: ");
    reveal_strlit("\r\nContent-Type: text/html\r\n\r\n");
    lemma_dec_ascii(n);
    let a = spec_status_line(r);
    let b = "Content-Length: "@;
    let c = spec_dec(n);
    let d = "\r\nContent-Type: text/html\r\n\r\n"@;
    assert(is_ascii_chars(a));
    assert(is_ascii_chars(b));
    assert(is_ascii_chars(d));
    assert forall|i: int| 0 <= i < spec_head(r, n).len() implies '\0' <= #[trigger] spec_head(
        r,
        n,
    )[i] <= '\u{7f}' by {
        let s = spec_head(r, n);
        if i < a.len() {
            assert(s[i] == a[i]);
        } else if i < a.len() + b.len() {
            assert(s[i] == b[i - a.len()]);
        } else if i < a.len() + b.len() + c.len() {
            assert(s[i] == c[i - a.len() - b.len()]);
        } else {
            assert(s[i] == d[i - a.len() - b.len() - c.len()]);
        }
    }
}

/// Encodes an ASCII head into bytes and appends the raw body bytes: the
/// exact byte sequence the client is sent.
pub fn response_bytes(head: &str, body: &[u8]) -> (r: Vec<u8>)
    requires
        head.is_ascii(),
    ensures
        r@ == ascii_bytes(head@) + body@,
{
    let n = head.unicode_len();
    let mut out: Vec<u8> = Vec::new();
    let mut i: usize = 0;
    while i < n
        invariant
            head.is_ascii(),
            n == head@.len(),
            i <= n,
            out@ == ascii_bytes(head@).subrange(0, i as int),
        decreases n - i,
    {
        let b = head.get_ascii(i);
        out.push(b);
        proof {
            assert(out@ =~= ascii_bytes(head@).subrange(0, i as int + 1));
        }
        i = i + 1;
    }
    proof {
        assert(out@ =~= ascii_bytes(head@));
    }
    let m = body.len();
    let mut j: usize = 0;
    while j < m
        invariant
            m == body@.len(),
            j <= m,
            out@ == ascii_bytes(head@) + body@.subrange(0, j as int),
        decreases m - j,
    {
        let b = *vstd::slice::slice_index_get(body, j);
        out.push(b);
        proof {
            assert(out@ =~= ascii_bytes(head@) + body@.subrange(0, j as int + 1));
        }
        j = j + 1;
    }
    proof {
        assert(out@ =~= ascii_bytes(head@) + body@);
    }
    out
}

/// Builds the complete response for a resource and its body bytes: the
/// status line and headers carry the body's exact byte length, and the body
/// itself follows byte for byte.
pub fn build_response(r: Resource, body: &[u8]) -> (out: Vec<u8>)
    ensures
        out@ == spec_response(r, body@),
{
    let head = response_head(r, body.len());
    proof {
        lemma_head_ascii(r, body@.len());
    }
    response_bytes(head.as_str(), body)
}

/// Law: a request whose method is anything but an exact `GET` selects no
/// resource — the handler writes nothing back and succeeds silently.
pub proof fn lemma_non_get_is_silent(method: Seq<char>, path: Seq<char>)
    requires
        method != "GET"@,
    ensures
        spec_plan(method, path) is None,
{
}

/// Law: whatever body bytes a resource's file holds, the response is its
/// encoded head — the head for exactly that body length — followed by the
/// body, byte for byte.
pub proof fn lemma_response_carries_body(r: Resource, body: Seq<u8>)
    ensures
        spec_response(r, body).len() == ascii_bytes(spec_head(r, body.len())).len() + body.len(),
        spec_response(r, body).subrange(
            ascii_bytes(spec_head(r, body.len())).len() as int,
            spec_response(r, body).len() as int,
        ) == body,
        spec_response(r, body).subrange(
            0,
            ascii_bytes(spec_head(r, body.len())).len() as int,
        ) == ascii_bytes(spec_head(r, body.len())),
{
    let head = ascii_bytes(spec_head(r, body.len()));
    assert(spec_response(r, body).subrange(head.len() as int, spec_response(r, body).len() as int)
        =~= body);
    assert(spec_response(r, body).subrange(0, head.len() as int) =~= head);
}

} // verus!
