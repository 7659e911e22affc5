//! The request router: reads the one HTTP request of a connection and
//! decides between the static page and a WebSocket upgrade.

use crate::handshake::{accept_of, handshake_response, headers_end, switching_response, headers_end_bytes};
use vstd::prelude::*;

verus! {

/// How an upgrade request's request line begins.
pub open spec fn ws_get_prefix() -> Seq<u8> {
    seq![
        'G' as u8, 'E' as u8, 'T' as u8, ' ' as u8, '/' as u8, 'w' as u8, 's' as u8, ' ' as u8
    ]
}

fn ws_get_prefix_bytes() -> (r: Vec<u8>)
    ensures
        r@ == ws_get_prefix(),
{
    vec![
        'G' as u8, 'E' as u8, 'T' as u8, ' ' as u8, '/' as u8, 'w' as u8, 's' as u8, ' ' as u8
    ]
}

/// The header line that asks for a WebSocket upgrade.
pub open spec fn upgrade_header() -> Seq<u8> {
    seq![
        'U' as u8, 'p' as u8, 'g' as u8, 'r' as u8, 'a' as u8, 'd' as u8, 'e' as u8, ':' as u8,
        ' ' as u8, 'w' as u8, 'e' as u8, 'b' as u8, 's' as u8, 'o' as u8, 'c' as u8, 'k' as u8,
        'e' as u8, 't' as u8
    ]
}

fn upgrade_header_bytes() -> (r: Vec<u8>)
    ensures
        r@ == upgrade_header(),
{
    vec![
        'U' as u8, 'p' as u8, 'g' as u8, 'r' as u8, 'a' as u8, 'd' as u8, 'e' as u8, ':' as u8,
        ' ' as u8, 'w' as u8, 'e' as u8, 'b' as u8, 's' as u8, 'o' as u8, 'c' as u8, 'k' as u8,
        'e' as u8, 't' as u8
    ]
}

/// How the line that carries the client's key begins.
pub open spec fn key_prefix() -> Seq<u8> {
    seq![
        'S' as u8, 'e' as u8, 'c' as u8, '-' as u8, 'W' as u8, 'e' as u8, 'b' as u8, 'S' as u8,
        'o' as u8, 'c' as u8, 'k' as u8, 'e' as u8, 't' as u8, '-' as u8, 'K' as u8, 'e' as u8,
        'y' as u8, ':' as u8
    ]
}

fn key_prefix_bytes() -> (r: Vec<u8>)
    ensures
        r@ == key_prefix(),
{
    vec![
        'S' as u8, 'e' as u8, 'c' as u8, '-' as u8, 'W' as u8, 'e' as u8, 'b' as u8, 'S' as u8,
        'o' as u8, 'c' as u8, 'k' as u8, 'e' as u8, 't' as u8, '-' as u8, 'K' as u8, 'e' as u8,
        'y' as u8, ':' as u8
    ]
}

/// Status line and headers of the page response, up to the length value.
pub open spec fn page_head() -> Seq<u8> {
    seq![
        'H' as u8, 'T' as u8, 'T' as u8, 'P' as u8, '/' as u8, '1' as u8, '.' as u8, '1' as u8,
        ' ' as u8, '2' as u8, '0' as u8, '0' as u8, ' ' as u8, 'O' as u8, 'K' as u8,
        '\r' as u8, '\n' as u8, 'C' as u8, 'o' as u8, 'n' as u8, 't' as u8, 'e' as u8,
        'n' as u8, 't' as u8, '-' as u8, 'T' as u8, 'y' as u8, 'p' as u8, 'e' as u8, ':' as u8,
        ' ' as u8, 't' as u8, 'e' as u8, 'x' as u8, 't' as u8, '/' as u8, 'h' as u8, 't' as u8,
        'm' as u8, 'l' as u8, '\r' as u8, '\n' as u8, 'C' as u8, 'o' as u8, 'n' as u8,
        't' as u8, 'e' as u8, 'n' as u8, 't' as u8, '-' as u8, 'L' as u8, 'e' as u8, 'n' as u8,
        'g' as u8, 't' as u8, 'h' as u8, ':' as u8, ' ' as u8
    ]
}

fn page_head_bytes() -> (r: Vec<u8>)
    ensures
        r@ == page_head(),
{
    vec![
        'H' as u8, 'T' as u8, 'T' as u8, 'P' as u8, '/' as u8, '1' as u8, '.' as u8, '1' as u8,
        ' ' as u8, '2' as u8, '0' as u8, '0' as u8, ' ' as u8, 'O' as u8, 'K' as u8,
        '\r' as u8, '\n' as u8, 'C' as u8, 'o' as u8, 'n' as u8, 't' as u8, 'e' as u8,
        'n' as u8, 't' as u8, '-' as u8, 'T' as u8, 'y' as u8, 'p' as u8, 'e' as u8, ':' as u8,
        ' ' as u8, 't' as u8, 'e' as u8, 'x' as u8, 't' as u8, '/' as u8, 'h' as u8, 't' as u8,
        'm' as u8, 'l' as u8, '\r' as u8, '\n' as u8, 'C' as u8, 'o' as u8, 'n' as u8,
        't' as u8, 'e' as u8, 'n' as u8, 't' as u8, '-' as u8, 'L' as u8, 'e' as u8, 'n' as u8,
        'g' as u8, 't' as u8, 'h' as u8, ':' as u8, ' ' as u8
    ]
}

/// Whether `data` is valid UTF-8.
pub uninterp spec fn utf8_valid(data: Seq<u8>) -> bool;

/// Relies on `core::str::from_utf8`: `Ok` exactly when the bytes are valid
/// UTF-8, which depends on the bytes alone.
#[verifier::external_body]
fn is_utf8(data: &[u8]) -> (r: bool)
    ensures
        r == utf8_valid(data@),
{
    core::str::from_utf8(data).is_ok()
}

/// The request as text: its bytes where they are valid UTF-8, else empty.
pub open spec fn request_text(request: Seq<u8>) -> Seq<u8> {
    if utf8_valid(request) {
        request
    } else {
        seq![]
    }
}

/// Whether `pat` occurs in `t` at position `p`.
pub open spec fn has_at(t: Seq<u8>, p: int, pat: Seq<u8>) -> bool {
    0 <= p && p + pat.len() <= t.len() && t.subrange(p, p + pat.len()) == pat
}

/// Whether the request asks for a WebSocket upgrade: it begins with
/// `GET /ws ` and holds `Upgrade: websocket`.
pub open spec fn is_upgrade(t: Seq<u8>) -> bool {
    has_at(t, 0, ws_get_prefix()) && exists|p: int| has_at(t, p, upgrade_header())
}

/// Whether a line of `t` begins at `p`.
pub open spec fn line_start(t: Seq<u8>, p: int) -> bool {
    p == 0 || (0 < p <= t.len() && t[p - 1] == '\n' as u8)
}

/// The first line at or after `from` that begins with `Sec-WebSocket-Key:`.
pub open spec fn key_line_from(t: Seq<u8>, from: int) -> Option<int>
    decreases t.len() - from,
{
    if from < 0 || from >= t.len() {
        None
    } else if line_start(t, from) && has_at(t, from, key_prefix()) {
        Some(from)
    } else {
        key_line_from(t, from + 1)
    }
}

/// Where the header value that starts at `from` ends: at the first `:` or
/// line feed, or at the end of the text.
pub open spec fn value_end(t: Seq<u8>, from: int) -> int
    decreases t.len() - from,
{
    if from < 0 || from >= t.len() {
        t.len() as int
    } else if t[from] == ':' as u8 || t[from] == '\n' as u8 {
        from
    } else {
        value_end(t, from + 1)
    }
}

/// ASCII whitespace: space, tab, line feed, vertical tab, form feed,
/// carriage return.
pub open spec fn is_space(b: u8) -> bool {
    b == ' ' as u8 || b == '\t' as u8 || b == '\n' as u8 || b == 11u8 || b == 12u8 || b == '\r' as u8
}

/// `s` without its leading whitespace.
pub open spec fn trim_front(s: Seq<u8>) -> Seq<u8>
    decreases s.len(),
{
    if s.len() > 0 && is_space(s[0]) {
        trim_front(s.drop_first())
    } else {
        s
    }
}

/// `s` without its trailing whitespace.
pub open spec fn trim_back(s: Seq<u8>) -> Seq<u8>
    decreases s.len(),
{
    if s.len() > 0 && is_space(s.last()) {
        trim_back(s.drop_last())
    } else {
        s
    }
}

/// `s` without leading and trailing whitespace.
pub open spec fn trim(s: Seq<u8>) -> Seq<u8> {
    trim_back(trim_front(s))
}

/// The client's key: on the first line that begins with
/// `Sec-WebSocket-Key:`, the text after that colon up to the next colon or
/// the line's end, with ASCII whitespace trimmed from both ends.
pub open spec fn key_of(t: Seq<u8>) -> Option<Seq<u8>> {
    match key_line_from(t, 0) {
        None => None,
        Some(p) => {
            let from = p + key_prefix().len();
            Some(trim(t.subrange(from, value_end(t, from))))
        },
    }
}

/// Decimal digits of `n`, most significant first, without leading zeros.
pub open spec fn decimal(n: nat) -> Seq<u8>
    decreases n,
{
    if n < 10 {
        seq![('0' as u8 + n) as u8]
    } else {
        decimal(n / 10).push(('0' as u8 + n % 10) as u8)
    }
}

/// The `200 OK` response that serves `page`, with its length in bytes as
/// `Content-Length`.
pub open spec fn page_response(page: Seq<u8>) -> Seq<u8> {
    page_head() + decimal(page.len()) + headers_end() + page
}

/// Whether `pat` occurs in `t` at position `p`.
fn matches_at(t: &[u8], p: usize, pat: &[u8]) -> (r: bool)
    ensures
        r == has_at(t@, p as int, pat@),
{
    if p > t.len() || pat.len() > t.len() - p {
        return false;
    }
    let mut k: usize = 0;
    while k < pat.len()
        invariant
            p + pat@.len() <= t.len(),
            k <= pat@.len(),
            forall|j: int| 0 <= j < k ==> t@[p + j] == pat@[j],
        decreases pat@.len() - k,
    {
        if t[p + k] != pat[k] {
            assert(t@.subrange(p as int, p + pat@.len())[k as int] != pat@[k as int]);
            return false;
        }
        k = k + 1;
    }
    assert(t@.subrange(p as int, p + pat@.len()) =~= pat@);
    true
}

/// Whether `pat` occurs anywhere in `t`.
fn occurs(t: &[u8], pat: &[u8]) -> (r: bool)
    ensures
        r == exists|p: int| has_at(t@, p, pat@),
{
    if pat.len() == 0 {
        assert(t@.subrange(0, 0) =~= pat@);
        assert(has_at(t@, 0, pat@));
        return true;
    }
    let mut p: usize = 0;
    while p < t.len()
        invariant
            p <= t@.len(),
            pat@.len() > 0,
            forall|q: int| 0 <= q < p ==> !has_at(t@, q, pat@),
        decreases t@.len() - p,
    {
        if matches_at(t, p, pat) {
            return true;
        }
        p = p + 1;
    }
    assert forall|q: int| !has_at(t@, q, pat@) by {
        if 0 <= q && q < p {
        } else {
        }
    }
    false
}

/// Position of the first line that begins with `Sec-WebSocket-Key:`.
fn find_key_line(t: &[u8]) -> (r: Option<usize>)
    ensures
        r matches Some(p) ==> key_line_from(t@, 0) == Some(p as int) && p + 18 <= t.len(),
        r is None ==> key_line_from(t@, 0) is None,
{
    let prefix = key_prefix_bytes();
    let mut p: usize = 0;
    while p < t.len()
        invariant
            p <= t@.len(),
            prefix@ == key_prefix(),
            key_line_from(t@, 0) == key_line_from(t@, p as int),
        decreases t@.len() - p,
    {
        if (p == 0 || t[p - 1] == '\n' as u8) && matches_at(t, p, prefix.as_slice()) {
            return Some(p);
        }
        p = p + 1;
    }
    None
}

/// Where the header value that starts at `from` ends.
fn find_value_end(t: &[u8], from: usize) -> (r: usize)
    requires
        from <= t@.len(),
    ensures
        r as int == value_end(t@, from as int),
        from <= r <= t@.len(),
{
    let mut i: usize = from;
    while i < t.len()
        invariant
            from <= i <= t@.len(),
            value_end(t@, from as int) == value_end(t@, i as int),
        decreases t@.len() - i,
    {
        if t[i] == ':' as u8 || t[i] == '\n' as u8 {
            return i;
        }
        i = i + 1;
    }
    i
}

fn space(b: u8) -> (r: bool)
    ensures
        r == is_space(b),
{
    b == ' ' as u8 || b == '\t' as u8 || b == '\n' as u8 || b == 11u8 || b == 12u8 || b == '\r' as u8
}

/// Bounds of `t[lo..hi]` without its leading and trailing whitespace.
fn trim_range(t: &[u8], lo: usize, hi: usize) -> (r: (usize, usize))
    requires
        lo <= hi <= t@.len(),
    ensures
        lo <= r.0 <= r.1 <= hi,
        t@.subrange(r.0 as int, r.1 as int) == trim(t@.subrange(lo as int, hi as int)),
{
    let mut i: usize = lo;
    while i < hi && space(t[i])
        invariant
            lo <= i <= hi <= t@.len(),
            trim_front(t@.subrange(lo as int, hi as int)) == trim_front(t@.subrange(i as int, hi as int)),
        decreases hi - i,
    {
        assert(t@.subrange(i as int, hi as int).drop_first() =~= t@.subrange(i + 1, hi as int));
        i = i + 1;
    }
    assert(trim_front(t@.subrange(i as int, hi as int)) == t@.subrange(i as int, hi as int));
    let mut j: usize = hi;
    while j > i && space(t[j - 1])
        invariant
            lo <= i <= j <= hi <= t@.len(),
            trim(t@.subrange(lo as int, hi as int)) == trim_back(t@.subrange(i as int, j as int)),
        decreases j - i,
    {
        assert(t@.subrange(i as int, j as int).drop_last() =~= t@.subrange(i as int, j - 1));
        j = j - 1;
    }
    (i, j)
}

/// The bytes `t[lo..hi]`.
fn copy_range(t: &[u8], lo: usize, hi: usize) -> (r: Vec<u8>)
    requires
        lo <= hi <= t@.len(),
    ensures
        r@ == t@.subrange(lo as int, hi as int),
{
    let mut out: Vec<u8> = Vec::new();
    let mut i: usize = lo;
    while i < hi
        invariant
            lo <= i <= hi <= t@.len(),
            out@ == t@.subrange(lo as int, i as int),
        decreases hi - i,
    {
        out.push(t[i]);
        i = i + 1;
    }
    out
}

/// The client's key in a request's text, if it has one.
fn find_key(t: &[u8]) -> (r: Option<Vec<u8>>)
    ensures
        r matches Some(k) ==> key_of(t@) == Some(k@),
        r is None ==> key_of(t@) is None,
{
    match find_key_line(t) {
        None => None,
        Some(p) => {
            let from = p + 18;
            let end = find_value_end(t, from);
            let (a, b) = trim_range(t, from, end);
            Some(copy_range(t, a, b))
        },
    }
}

/// Appends the decimal digits of `n`.
fn push_decimal(out: &mut Vec<u8>, n: usize)
    ensures
        final(out)@ == old(out)@ + decimal(n as nat),
    decreases n,
{
    if n >= 10 {
        push_decimal(out, n / 10);
    }
    out.push(('0' as u8 + (n % 10) as u8) as u8);
    assert(final(out)@ == old(out)@ + decimal(n as nat));
}

/// Builds the `200 OK` response that serves `page`.
pub fn page_ok(page: &[u8]) -> (r: Vec<u8>)
    ensures
        r@ == page_response(page@),
{
    let mut out = page_head_bytes();
    push_decimal(&mut out, page.len());
    let mut end = headers_end_bytes();
    out.append(&mut end);
    let ghost head = out@;
    let mut i: usize = 0;
    while i < page.len()
        invariant
            i <= page@.len(),
            out@ == head + page@.subrange(0, i as int),
        decreases page@.len() - i,
    {
        out.push(page[i]);
        i = i + 1;
    }
    assert(page@.subrange(0, page@.len() as int) == page@);
    out
}

/// What to do with a connection after its request was read.
pub enum Route {
    /// Write these bytes (the page response) and close.
    Page(Vec<u8>),
    /// Write these bytes (the `101 Switching Protocols` response) and run a
    /// WebSocket session.
    Upgrade(Vec<u8>),
    /// Send nothing and close: an upgrade request without a key.
    Abandon,
}

/// Routes one HTTP request: an upgrade request with a key gets the
/// handshake response, one without a key is abandoned, and any other
/// request gets the static page.
pub fn route(request: &[u8], page: &[u8]) -> (r: Route)
    ensures
        !is_upgrade(request_text(request@)) ==> (r matches Route::Page(b) && b@ == page_response(page@)),
        is_upgrade(request_text(request@)) ==> match key_of(request_text(request@)) {
            None => r is Abandon,
            Some(k) => r matches Route::Upgrade(b) && b@ == switching_response(accept_of(k)),
        },
{
    let empty: Vec<u8> = Vec::new();
    let text: &[u8] = if is_utf8(request) {
        request
    } else {
        empty.as_slice()
    };
    assert(text@ == request_text(request@));
    let get_prefix = ws_get_prefix_bytes();
    let upgrade = upgrade_header_bytes();
    if matches_at(text, 0, get_prefix.as_slice()) && occurs(text, upgrade.as_slice()) {
        match find_key(text) {
            None => Route::Abandon,
            Some(key) => Route::Upgrade(handshake_response(key.as_slice())),
        }
    } else {
        Route::Page(page_ok(page))
    }
}

} // verus!
