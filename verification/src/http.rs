//! The request routing and response framing of the front-end that feeds the
//! pool. Everything here works on bytes already read and produces bytes still
//! to be written.

use vstd::prelude::*;
use vstd::string::*;

verus! {

/// The pages the server knows.
#[derive(Clone, Copy, Debug, PartialEq, Eq, Structural)]
pub enum Route {
    /// The front page.
    Hello,
    /// The front page, served after a pause.
    Sleep,
    /// Anything else.
    NotFound,
}

/// The route that a request line asks for.
pub open spec fn route_of(line: Seq<u8>) -> Route {
    if line == "GET / HTTP/1.1".spec_bytes() {
        Route::Hello
    } else if line == "GET /sleep HTTP/1.1".spec_bytes() {
        Route::Sleep
    } else {
        Route::NotFound
    }
}

/// The decimal digits of `n`, most significant first, as ASCII.
pub open spec fn decimal(n: nat) -> Seq<u8>
    decreases n,
{
    if n < 10 {
        seq![(48 + n) as u8]
    } else {
        decimal(n / 10).push((48 + n % 10) as u8)
    }
}

/// A response: the status line, the length of the body, an empty line, the body.
pub open spec fn response_bytes(status: Seq<u8>, body: Seq<u8>) -> Seq<u8> {
    status + "\r\nContent-Length: ".spec_bytes() + decimal(body.len()) + "\r\n\r\n".spec_bytes()
        + body
}

impl Route {
    /// The status line of the response, as text.
    pub open spec fn status(self) -> Seq<char> {
        match self {
            Route::NotFound => "HTTP/1.1 404 NOT FOUND"@,
            _ => "HTTP/1.1 200 OK"@,
        }
    }

    /// The name of the file that holds the body, as text.
    pub open spec fn file(self) -> Seq<char> {
        match self {
            Route::NotFound => "404.html"@,
            _ => "hello.html"@,
        }
    }

    /// The status line of the response.
    pub fn status_line(&self) -> (s: &'static str)
        ensures
            s@ == self.status(),
    {
        match self {
            Route::NotFound => "HTTP/1.1 404 NOT FOUND",
            _ => "HTTP/1.1 200 OK",
        }
    }

    /// The name of the file that holds the body.
    pub fn file_name(&self) -> (s: &'static str)
        ensures
            s@ == self.file(),
    {
        match self {
            Route::NotFound => "404.html",
            _ => "hello.html",
        }
    }

    /// How many seconds the handler pauses before it answers.
    pub fn delay_secs(&self) -> (d: u64)
        ensures
            d == (if *self == Route::Sleep {
                5u64
            } else {
                0u64
            }),
    {
        match self {
            Route::Sleep => 5,
            _ => 0,
        }
    }
}

/// Whether two byte strings are the same.
fn bytes_eq(a: &[u8], b: &[u8]) -> (same: bool)
    ensures
        same == (a@ == b@),
{
    if a.len() != b.len() {
        return false;
    }
    let mut i: usize = 0;
    while i < a.len()
        invariant
            a@.len() == b@.len(),
            i <= a@.len(),
            forall|k: int| 0 <= k < i ==> a@[k] == b@[k],
        decreases a@.len() - i,
    {
        if a[i] != b[i] {
            return false;
        }
        i = i + 1;
    }
    assert(a@ =~= b@);
    true
}

/// Appends `bytes` to `out`.
fn append_bytes(out: &mut Vec<u8>, bytes: &[u8])
    ensures
        final(out)@ == old(out)@ + bytes@,
{
    let mut i: usize = 0;
    while i < bytes.len()
        invariant
            i <= bytes@.len(),
            out@ == old(out)@ + bytes@.take(i as int),
        decreases bytes@.len() - i,
    {
        out.push(bytes[i]);
        i = i + 1;
    }
}

/// Picks the route for a request line, given without its line ending. Only
/// the two exact lines `GET / HTTP/1.1` and `GET /sleep HTTP/1.1` lead
/// anywhere; all else is not found.
pub fn route(request_line: &[u8]) -> (r: Route)
    ensures
        r == route_of(request_line@),
{
    if bytes_eq(request_line, "GET / HTTP/1.1".as_bytes()) {
        Route::Hello
    } else if bytes_eq(request_line, "GET /sleep HTTP/1.1".as_bytes()) {
        Route::Sleep
    } else {
        Route::NotFound
    }
}

/// Writes `n` in decimal.
pub fn render_decimal(n: usize) -> (digits: Vec<u8>)
    ensures
        digits@ == decimal(n as nat),
    decreases n,
{
    if n < 10 {
        let digit: u8 = 48 + n as u8;
        let mut digits: Vec<u8> = Vec::new();
        digits.push(digit);
        digits
    } else {
        let mut digits = render_decimal(n / 10);
        let digit: u8 = 48 + (n % 10) as u8;
        digits.push(digit);
        digits
    }
}

/// Frames a response: `status_line`, a `Content-Length` header that gives
/// the length of `contents` in bytes, an empty line, then `contents`.
pub fn response(status_line: &str, contents: &[u8]) -> (out: Vec<u8>)
    ensures
        out@ == response_bytes(status_line.spec_bytes(), contents@),
{
    let mut out: Vec<u8> = Vec::new();
    append_bytes(&mut out, status_line.as_bytes());
    append_bytes(&mut out, "\r\nContent-Length: ".as_bytes());
    let length = render_decimal(contents.len());
    append_bytes(&mut out, length.as_slice());
    append_bytes(&mut out, "\r\n\r\n".as_bytes());
    append_bytes(&mut out, contents);
    out
}

/// The number that a string of ASCII digits stands for.
pub open spec fn decimal_value(digits: Seq<u8>) -> nat
    decreases digits.len(),
{
    if digits.len() == 0 {
        0
    } else {
        (decimal_value(digits.drop_last()) * 10 + (digits.last() - 48)) as nat
    }
}

/// The digits of a number are ASCII digits, at least one of them, with a
/// leading zero only for zero itself, and read back they give the number.
pub proof fn lemma_decimal_reads_back(n: nat)
    ensures
        decimal(n).len() >= 1,
        forall|i: int| 0 <= i < decimal(n).len() ==> 48 <= #[trigger] decimal(n)[i] <= 57,
        decimal(n)[0] == 48 <==> n == 0,
        decimal_value(decimal(n)) == n,
    decreases n,
{
    if n < 10 {
        assert(decimal_value(decimal(n).drop_last()) == 0);
    } else {
        lemma_decimal_reads_back(n / 10);
        assert(decimal(n).drop_last() =~= decimal(n / 10));
    }
}

} // verus!
