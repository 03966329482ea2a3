//! The request and response rules of the server: which page a raw request
//! asks for, and the exact bytes of the response for a page's contents.
//!
//! The connection-handling shell reads the request bytes from the socket,
//! lets this module decide the route and build the response text, and does
//! nothing with either beyond passing them along.

use vstd::prelude::*;
use vstd::string::*;

verus! {

/// `prefix` is an initial segment of `data`.
pub open spec fn is_prefix_of(prefix: Seq<u8>, data: Seq<u8>) -> bool {
    prefix.len() <= data.len() && forall|i: int| 0 <= i < prefix.len() ==> data[i] == prefix[i]
}

/// The request line asking for the front page.
pub open spec fn root_line() -> Seq<u8> {
    "GET / HTTP/1.1\r\n".spec_bytes()
}

/// The request line asking for the deliberately slow page.
pub open spec fn sleep_line() -> Seq<u8> {
    "GET /sleep HTTP/1.1\r\n".spec_bytes()
}

/// Whether `data` begins with the bytes of `prefix`.
pub fn starts_with_bytes(data: &[u8], prefix: &[u8]) -> (r: bool)
    ensures
        r == is_prefix_of(prefix@, data@),
{
    let plen = prefix.len();
    if plen > data.len() {
        return false;
    }
    let mut i: usize = 0;
    while i < plen
        invariant
            plen == prefix@.len(),
            plen <= data@.len(),
            i <= plen,
            forall|k: int| 0 <= k < i ==> data@[k] == prefix@[k],
        decreases plen - i,
    {
        if data[i] != prefix[i] {
            return false;
        }
        i = i + 1;
    }
    true
}

/// The three request shapes the server distinguishes, decided by the
/// request's opening bytes.
#[derive(Clone, Copy, PartialEq, Eq, Structural, Debug)]
pub enum RequestKind {
    /// A plain request for the front page.
    Root,
    /// A request for the slow page: served like the front page, after the
    /// shell has let the worker sleep.
    Sleep,
    /// Anything else; answered with the not-found page.
    Other,
}

/// Decide which page raw request bytes ask for. The front-page line is
/// checked first; a request matching neither known line is `Other`.
pub fn classify_request(request: &[u8]) -> (r: RequestKind)
    ensures
        (r == RequestKind::Root) == is_prefix_of(root_line(), request@),
        (r == RequestKind::Sleep) == (!is_prefix_of(root_line(), request@) && is_prefix_of(
            sleep_line(),
            request@,
        )),
        (r == RequestKind::Other) == (!is_prefix_of(root_line(), request@) && !is_prefix_of(
            sleep_line(),
            request@,
        )),
{
    let root = "GET / HTTP/1.1\r\n".as_bytes();
    if starts_with_bytes(request, root) {
        RequestKind::Root
    } else {
        let sleep = "GET /sleep HTTP/1.1\r\n".as_bytes();
        if starts_with_bytes(request, sleep) {
            RequestKind::Sleep
        } else {
            RequestKind::Other
        }
    }
}

/// The status line and the file to serve for a classified request: the
/// front page with status 200 for the two known request lines, the
/// not-found page with status 404 for everything else.
pub fn response_parts(kind: RequestKind) -> (r: (&'static str, &'static str))
    ensures
        kind is Root || kind is Sleep ==> r.0@ == "HTTP/1.1 200 OK"@ && r.1@ == "hello.html"@,
        kind is Other ==> r.0@ == "HTTP/1.1 404 NOT FOUND"@ && r.1@ == "404.html"@,
{
    match kind {
        RequestKind::Root => ("HTTP/1.1 200 OK", "hello.html"),
        RequestKind::Sleep => ("HTTP/1.1 200 OK", "hello.html"),
        RequestKind::Other => ("HTTP/1.1 404 NOT FOUND", "404.html"),
    }
}

/// The character for one decimal digit.
pub open spec fn digit_char(d: nat) -> char
    recommends
        d < 10,
{
    if d == 0 {
        '0'
    } else if d == 1 {
        '1'
    } else if d == 2 {
        '2'
    } else if d == 3 {
        '3'
    } else if d == 4 {
        '4'
    } else if d == 5 {
        '5'
    } else if d == 6 {
        '6'
    } else if d == 7 {
        '7'
    } else if d == 8 {
        '8'
    } else {
        '9'
    }
}

/// The decimal digits of `n`, most significant first, without leading
/// zeros (`0` itself is the single digit `0`).
pub open spec fn dec_digits(n: nat) -> Seq<char>
    decreases n,
{
    if n < 10 {
        seq![digit_char(n)]
    } else {
        dec_digits(n / 10).push(digit_char(n % 10))
    }
}

/// The one-character string for a decimal digit.
fn digit_str(d: u8) -> (r: &'static str)
    requires
        d < 10,
    ensures
        r@ == seq![digit_char(d as nat)],
{
    let r: &'static str = if d == 0 {
        "0"
    } else if d == 1 {
        "1"
    } else if d == 2 {
        "2"
    } else if d == 3 {
        "3"
    } else if d == 4 {
        "4"
    } else if d == 5 {
        "5"
    } else if d == 6 {
        "6"
    } else if d == 7 {
        "7"
    } else if d == 8 {
        "8"
    } else {
        "9"
    };
    proof {
        reveal_strlit("0");
        reveal_strlit("1");
        reveal_strlit("2");
        reveal_strlit("3");
        reveal_strlit("4");
        reveal_strlit("5");
        reveal_strlit("6");
        reveal_strlit("7");
        reveal_strlit("8");
        reveal_strlit("9");
        assert(r@ =~= seq![digit_char(d as nat)]);
    }
    r
}

/// Render `n` in decimal.
pub fn decimal_string(n: usize) -> (r: String)
    ensures
        r@ == dec_digits(n as nat),
    decreases n,
{
    if n < 10 {
        String::from_str(digit_str(n as u8))
    } else {
        assert(n / 10 < n) by (nonlinear_arith)
            requires
                n >= 10,
        ;
        let mut s = decimal_string(n / 10);
        s.append(digit_str((n % 10) as u8));
        proof {
            assert(s@ =~= dec_digits(n as nat));
        }
        s
    }
}

/// The full response for a status line and a page's contents: the status
/// line, a Content-Length header giving the byte length of the contents,
/// a blank line, and the contents themselves.
pub fn build_response(status_line: &str, contents: &str) -> (r: String)
    ensures
        r@ == status_line@ + "\r\nContent-Length: "@ + dec_digits(contents.spec_bytes().len())
            + "\r\n\r\n"@ + contents@,
{
    let mut r = String::from_str(status_line);
    r.append("\r\nContent-Length: ");
    let n = contents.as_bytes().len();
    let digits = decimal_string(n);
    r.append(digits.as_str());
    r.append("\r\n\r\n");
    r.append(contents);
    proof {
        assert(r@ =~= status_line@ + "\r\nContent-Length: "@ + dec_digits(
            contents.spec_bytes().len(),
        ) + "\r\n\r\n"@ + contents@);
    }
    r
}

} // verus!
