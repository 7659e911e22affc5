//! The WebSocket upgrade handshake: the accept value derived from the
//! client's key, and the `101 Switching Protocols` response that carries it.

use vstd::prelude::*;

verus! {

/// The fixed GUID that the WebSocket protocol appends to a client's key.
pub open spec fn handshake_guid() -> Seq<u8> {
    seq![
        '2' as u8, '5' as u8, '8' as u8, 'E' as u8, 'A' as u8, 'F' as u8, 'A' as u8, '5' as u8,
        '-' as u8, 'E' as u8, '9' as u8, '1' as u8, '4' as u8, '-' as u8, '4' as u8, '7' as u8,
        'D' as u8, 'A' as u8, '-' as u8, '9' as u8, '5' as u8, 'C' as u8, 'A' as u8, '-' as u8,
        'C' as u8, '5' as u8, 'A' as u8, 'B' as u8, '0' as u8, 'D' as u8, 'C' as u8, '8' as u8,
        '5' as u8, 'B' as u8, '1' as u8, '1' as u8
    ]
}

/// SHA-1 digest of `data`.
pub uninterp spec fn sha1_of(data: Seq<u8>) -> Seq<u8>;

/// Relies on `sha1::Sha1::digest` (through `digest::Digest`): the 20-byte
/// SHA-1 digest of the input, which depends on the input alone.
#[verifier::external_body]
fn sha1_digest(data: &[u8]) -> (r: Vec<u8>)
    ensures
        r@ == sha1_of(data@),
        r@.len() == 20,
{
    <sha1::Sha1 as sha1::Digest>::digest(data).to_vec()
}

/// The character of the standard base64 alphabet for a six-bit value.
pub open spec fn b64_symbol(v: u8) -> u8 {
    if v < 26 {
        ('A' as u8 + v) as u8
    } else if v < 52 {
        ('a' as u8 + (v - 26)) as u8
    } else if v < 62 {
        ('0' as u8 + (v - 52)) as u8
    } else if v == 62 {
        '+' as u8
    } else {
        '/' as u8
    }
}

/// Standard base64 (RFC 4648 alphabet, `=` padding) of `d`: each group of
/// three bytes becomes four symbols; a last group of one or two bytes is
/// padded to four symbols.
pub open spec fn base64_std(d: Seq<u8>) -> Seq<u8>
    decreases d.len(),
{
    if d.len() == 0 {
        seq![]
    } else if d.len() == 1 {
        seq![
            b64_symbol(d[0] / 4),
            b64_symbol(((d[0] % 4) * 16) as u8),
            '=' as u8,
            '=' as u8,
        ]
    } else if d.len() == 2 {
        seq![
            b64_symbol(d[0] / 4),
            b64_symbol(((d[0] % 4) * 16 + d[1] / 16) as u8),
            b64_symbol(((d[1] % 16) * 4) as u8),
            '=' as u8,
        ]
    } else {
        seq![
            b64_symbol(d[0] / 4),
            b64_symbol(((d[0] % 4) * 16 + d[1] / 16) as u8),
            b64_symbol(((d[1] % 16) * 4 + d[2] / 64) as u8),
            b64_symbol(d[2] % 64),
        ] + base64_std(d.subrange(3, d.len() as int))
    }
}

/// Relies on `base64::engine::general_purpose::STANDARD.encode`: standard
/// alphabet with padding; its output is ASCII, handed out as its bytes. The
/// crate panics only when the output length overflows `usize`.
#[verifier::external_body]
fn base64_encode(d: &[u8]) -> (r: Vec<u8>)
    requires
        d@.len() <= usize::MAX / 2,
    ensures
        r@ == base64_std(d@),
{
    base64::Engine::encode(&base64::engine::general_purpose::STANDARD, d).into_bytes()
}

/// The `Sec-WebSocket-Accept` value for a client key.
pub open spec fn accept_of(key: Seq<u8>) -> Seq<u8> {
    base64_std(sha1_of(key + handshake_guid()))
}

/// Derives the `Sec-WebSocket-Accept` value: base64 of the SHA-1 digest of
/// the key followed by the protocol's GUID.
pub fn accept_key(key: &[u8]) -> (r: Vec<u8>)
    ensures
        r@ == accept_of(key@),
{
    let mut data: Vec<u8> = Vec::new();
    let mut i: usize = 0;
    while i < key.len()
        invariant
            i <= key@.len(),
            data@ == key@.subrange(0, i as int),
        decreases key@.len() - i,
    {
        data.push(key[i]);
        i = i + 1;
    }
    let guid = guid_bytes();
    data.append(&mut guid.clone());
    assert(data@ == key@ + handshake_guid());
    let digest = sha1_digest(data.as_slice());
    accept_from_digest(digest.as_slice())
}

/// The accept value for a given SHA-1 digest: its standard base64.
pub fn accept_from_digest(digest: &[u8]) -> (r: Vec<u8>)
    requires
        digest@.len() <= usize::MAX / 2,
    ensures
        r@ == base64_std(digest@),
{
    base64_encode(digest)
}

fn guid_bytes() -> (r: Vec<u8>)
    ensures
        r@ == handshake_guid(),
{
    vec![
        '2' as u8, '5' as u8, '8' as u8, 'E' as u8, 'A' as u8, 'F' as u8, 'A' as u8, '5' as u8,
        '-' as u8, 'E' as u8, '9' as u8, '1' as u8, '4' as u8, '-' as u8, '4' as u8, '7' as u8,
        'D' as u8, 'A' as u8, '-' as u8, '9' as u8, '5' as u8, 'C' as u8, 'A' as u8, '-' as u8,
        'C' as u8, '5' as u8, 'A' as u8, 'B' as u8, '0' as u8, 'D' as u8, 'C' as u8, '8' as u8,
        '5' as u8, 'B' as u8, '1' as u8, '1' as u8
    ]
}

/// Status line and headers of the upgrade response, up to the accept value.
pub open spec fn switching_head() -> Seq<u8> {
    seq![
        'H' as u8, 'T' as u8, 'T' as u8, 'P' as u8, '/' as u8, '1' as u8, '.' as u8, '1' as u8,
        ' ' as u8, '1' as u8, '0' as u8, '1' as u8, ' ' as u8, 'S' as u8, 'w' as u8, 'i' as u8,
        't' as u8, 'c' as u8, 'h' as u8, 'i' as u8, 'n' as u8, 'g' as u8, ' ' as u8, 'P' as u8,
        'r' as u8, 'o' as u8, 't' as u8, 'o' as u8, 'c' as u8, 'o' as u8, 'l' as u8, 's' as u8,
        '\r' as u8, '\n' as u8, 'U' as u8, 'p' as u8, 'g' as u8, 'r' as u8, 'a' as u8,
        'd' as u8, 'e' as u8, ':' as u8, ' ' as u8, 'w' as u8, 'e' as u8, 'b' as u8, 's' as u8,
        'o' as u8, 'c' as u8, 'k' as u8, 'e' as u8, 't' as u8, '\r' as u8, '\n' as u8,
        'C' as u8, 'o' as u8, 'n' as u8, 'n' as u8, 'e' as u8, 'c' as u8, 't' as u8, 'i' as u8,
        'o' as u8, 'n' as u8, ':' as u8, ' ' as u8, 'U' as u8, 'p' as u8, 'g' as u8, 'r' as u8,
        'a' as u8, 'd' as u8, 'e' as u8, '\r' as u8, '\n' as u8, 'S' as u8, 'e' as u8,
        'c' as u8, '-' as u8, 'W' as u8, 'e' as u8, 'b' as u8, 'S' as u8, 'o' as u8, 'c' as u8,
        'k' as u8, 'e' as u8, 't' as u8, '-' as u8, 'A' as u8, 'c' as u8, 'c' as u8, 'e' as u8,
        'p' as u8, 't' as u8, ':' as u8, ' ' as u8
    ]
}

/// The blank line that ends a response's headers, after the last header's end.
pub open spec fn headers_end() -> Seq<u8> {
    seq!['\r' as u8, '\n' as u8, '\r' as u8, '\n' as u8]
}

/// The `101 Switching Protocols` response for a given accept value.
pub open spec fn switching_response(accept: Seq<u8>) -> Seq<u8> {
    switching_head() + accept + headers_end()
}

pub(crate) fn headers_end_bytes() -> (r: Vec<u8>)
    ensures
        r@ == headers_end(),
{
    vec!['\r' as u8, '\n' as u8, '\r' as u8, '\n' as u8]
}

/// Builds the upgrade response around an accept value.
pub fn switching_protocols(accept: &[u8]) -> (r: Vec<u8>)
    ensures
        r@ == switching_response(accept@),
{
    let mut out: Vec<u8> = vec![
        'H' as u8, 'T' as u8, 'T' as u8, 'P' as u8, '/' as u8, '1' as u8, '.' as u8, '1' as u8,
        ' ' as u8, '1' as u8, '0' as u8, '1' as u8, ' ' as u8, 'S' as u8, 'w' as u8, 'i' as u8,
        't' as u8, 'c' as u8, 'h' as u8, 'i' as u8, 'n' as u8, 'g' as u8, ' ' as u8, 'P' as u8,
        'r' as u8, 'o' as u8, 't' as u8, 'o' as u8, 'c' as u8, 'o' as u8, 'l' as u8, 's' as u8,
        '\r' as u8, '\n' as u8, 'U' as u8, 'p' as u8, 'g' as u8, 'r' as u8, 'a' as u8,
        'd' as u8, 'e' as u8, ':' as u8, ' ' as u8, 'w' as u8, 'e' as u8, 'b' as u8, 's' as u8,
        'o' as u8, 'c' as u8, 'k' as u8, 'e' as u8, 't' as u8, '\r' as u8, '\n' as u8,
        'C' as u8, 'o' as u8, 'n' as u8, 'n' as u8, 'e' as u8, 'c' as u8, 't' as u8, 'i' as u8,
        'o' as u8, 'n' as u8, ':' as u8, ' ' as u8, 'U' as u8, 'p' as u8, 'g' as u8, 'r' as u8,
        'a' as u8, 'd' as u8, 'e' as u8, '\r' as u8, '\n' as u8, 'S' as u8, 'e' as u8,
        'c' as u8, '-' as u8, 'W' as u8, 'e' as u8, 'b' as u8, 'S' as u8, 'o' as u8, 'c' as u8,
        'k' as u8, 'e' as u8, 't' as u8, '-' as u8, 'A' as u8, 'c' as u8, 'c' as u8, 'e' as u8,
        'p' as u8, 't' as u8, ':' as u8, ' ' as u8
    ];
    let mut i: usize = 0;
    let ghost head = out@;
    while i < accept.len()
        invariant
            i <= accept@.len(),
            head == switching_head(),
            out@ == head + accept@.subrange(0, i as int),
        decreases accept@.len() - i,
    {
        out.push(accept[i]);
        i = i + 1;
    }
    let mut tail = headers_end_bytes();
    out.append(&mut tail);
    assert(accept@.subrange(0, accept@.len() as int) == accept@);
    out
}

/// The whole upgrade response for a client key.
pub fn handshake_response(key: &[u8]) -> (r: Vec<u8>)
    ensures
        r@ == switching_response(accept_of(key@)),
{
    let accept = accept_key(key);
    switching_protocols(accept.as_slice())
}

} // verus!
