//! Routing of a request line and framing of the response sent back.
use vstd::prelude::*;
use vstd::utf8::*;

verus! {

/// The request line that asks for the root page.
pub const ROOT_REQUEST: &'static str = "GET / HTTP/1.1";

/// The request line that asks for the root page after a fixed delay.
pub const DELAYED_REQUEST: &'static str = "GET /sleep HTTP/1.1";

/// Seconds that a delayed request waits before it is answered.
pub const DELAY_SECS: u64 = 5;

/// What a request line is answered with.
#[derive(Clone, Copy, Debug, PartialEq, Eq, Structural)]
pub enum Route {
    /// `GET / HTTP/1.1`: the root page at once.
    Root,
    /// `GET /sleep HTTP/1.1`: the root page after a fixed delay.
    Delayed,
    /// Anything else: the not-found page.
    Unknown,
}

/// The route that a request line selects, by exact match.
pub open spec fn route_of(line: Seq<char>) -> Route {
    if line == ROOT_REQUEST@ {
        Route::Root
    } else if line == DELAYED_REQUEST@ {
        Route::Delayed
    } else {
        Route::Unknown
    }
}

/// The status line sent for a route.
pub open spec fn status_text(route: Route) -> Seq<char> {
    match route {
        Route::Unknown => "HTTP/1.1 404 NOT FOUND"@,
        _ => "HTTP/1.1 200 OK"@,
    }
}

/// The name of the page file served for a route.
pub open spec fn page_text(route: Route) -> Seq<char> {
    match route {
        Route::Unknown => "404.html"@,
        _ => "hello.html"@,
    }
}

/// The ASCII decimal digits of `n`, most significant first, with no leading zero.
pub open spec fn decimal(n: nat) -> Seq<u8>
    decreases n,
{
    if n < 10 {
        seq![(48 + n) as u8]
    } else {
        decimal(n / 10).push((48 + n % 10) as u8)
    }
}

/// The bytes of a response: the status line, a `Content-Length` header that
/// gives the body's length in bytes, a blank line, and the body.
pub open spec fn response_bytes(status: Seq<char>, body: Seq<char>) -> Seq<u8> {
    encode_utf8(status) + encode_utf8("\r\nContent-Length: "@) + decimal(
        encode_utf8(body).len(),
    ) + encode_utf8("\r\n\r\n"@) + encode_utf8(body)
}

/// Two texts with the same UTF-8 encoding are the same text.
proof fn lemma_encoding_injective(a: Seq<char>, b: Seq<char>)
    requires
        encode_utf8(a) == encode_utf8(b),
    ensures
        a == b,
{
    encode_utf8_decode_utf8(a);
    encode_utf8_decode_utf8(b);
}

/// Whether two byte slices hold the same bytes.
fn same_bytes(a: &[u8], b: &[u8]) -> (r: bool)
    ensures
        r == (a@ == b@),
{
    if a.len() != b.len() {
        return false;
    }
    let mut i: usize = 0;
    while i < a.len()
        invariant
            a@.len() == b@.len(),
            i <= a@.len(),
            forall|j: int| 0 <= j < i ==> a@[j] == b@[j],
        decreases a@.len() - i,
    {
        if a[i] != b[i] {
            return false;
        }
        i = i + 1;
    }
    assert(a@ =~= b@);
    true
}

/// Whether two texts are equal, compared through their bytes.
fn same_text(a: &str, b: &str) -> (r: bool)
    ensures
        r == (a@ == b@),
{
    let r = same_bytes(a.as_bytes(), b.as_bytes());
    proof {
        if r {
            lemma_encoding_injective(a@, b@);
        }
    }
    r
}

/// Selects the route for a request line by exact match against the two
/// recognised forms; any other line is not found.
pub fn classify(line: &str) -> (r: Route)
    ensures
        r == route_of(line@),
{
    if same_text(line, ROOT_REQUEST) {
        Route::Root
    } else if same_text(line, DELAYED_REQUEST) {
        Route::Delayed
    } else {
        Route::Unknown
    }
}

/// The route for the first line read from a connection, or `None` (nothing is
/// answered) when the connection gave no line: it closed first or the read failed.
pub fn request_route(first_line: Option<&str>) -> (r: Option<Route>)
    ensures
        first_line is None <==> r is None,
        first_line is Some ==> r == Some(route_of(first_line->0@)),
{
    match first_line {
        Some(line) => Some(classify(line)),
        None => None,
    }
}

/// Appends the decimal digits of `n` to `out`.
fn push_decimal(out: &mut Vec<u8>, n: usize)
    ensures
        final(out)@ == old(out)@ + decimal(n as nat),
    decreases n,
{
    if n >= 10 {
        push_decimal(out, n / 10);
    }
    out.push(48u8 + (n % 10) as u8);
    assert(final(out)@ =~= old(out)@ + decimal(n as nat));
}

/// Appends the bytes of `bytes` to `out`.
fn push_bytes(out: &mut Vec<u8>, bytes: &[u8])
    ensures
        final(out)@ == old(out)@ + bytes@,
{
    let ghost start = out@;
    let mut i: usize = 0;
    while i < bytes.len()
        invariant
            i <= bytes@.len(),
            out@ =~= start + bytes@.subrange(0, i as int),
        decreases bytes@.len() - i,
    {
        out.push(bytes[i]);
        i = i + 1;
    }
    assert(bytes@.subrange(0, bytes@.len() as int) =~= bytes@);
}

impl Route {
    /// The status line sent for this route.
    pub fn status_line(&self) -> (r: &'static str)
        ensures
            r@ == status_text(*self),
    {
        match self {
            Route::Unknown => "HTTP/1.1 404 NOT FOUND",
            _ => "HTTP/1.1 200 OK",
        }
    }

    /// The name of the page file whose contents form the body.
    pub fn page(&self) -> (r: &'static str)
        ensures
            r@ == page_text(*self),
    {
        match self {
            Route::Unknown => "404.html",
            _ => "hello.html",
        }
    }

    /// Seconds to wait before answering: the fixed delay for the delayed form,
    /// none otherwise.
    pub fn delay_secs(&self) -> (r: u64)
        ensures
            r == (if *self == Route::Delayed { DELAY_SECS } else { 0 }),
    {
        match self {
            Route::Delayed => DELAY_SECS,
            _ => 0,
        }
    }

    /// The full response for this route with `body` as the page contents.
    pub fn response(&self, body: &str) -> (r: Vec<u8>)
        ensures
            r@ == response_bytes(status_text(*self), body@),
    {
        let mut out: Vec<u8> = Vec::new();
        push_bytes(&mut out, self.status_line().as_bytes());
        push_bytes(&mut out, "\r\nContent-Length: ".as_bytes());
        let body_bytes = body.as_bytes();
        push_decimal(&mut out, body_bytes.len());
        push_bytes(&mut out, "\r\n\r\n".as_bytes());
        push_bytes(&mut out, body_bytes);
        out
    }
}

} // verus!
