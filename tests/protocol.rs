use led_matrix_draw::frame::{decode_header, encode_pong, encode_snapshot, unmask, FrameError, FrameHeader};
use led_matrix_draw::handshake::{accept_from_digest, accept_key, handshake_response, switching_protocols};
use led_matrix_draw::led_matrix::{self, get, snapshot, DisplayState};
use led_matrix_draw::router::{page_ok, route, Route};
use led_matrix_draw::session::{open_session, step, Action, ClickEvent, Event, Phase};

fn masked_frame(opcode: u8, mask: [u8; 4], payload: &[u8]) -> (Vec<u8>, Vec<u8>) {
    let header = vec![0x80 | opcode, 0x80 | payload.len() as u8];
    let mut rest = mask.to_vec();
    for (i, b) in payload.iter().enumerate() {
        rest.push(b ^ mask[i % 4]);
    }
    (header, rest)
}

#[test]
fn set_then_get_every_cell() {
    for y in 0..8u8 {
        for x in 0..8u8 {
            for on in [true, false] {
                let mut s = DisplayState::from_bits(0xA5A5_5A5A_0F0F_F0F0);
                let before = snapshot(&s);
                led_matrix::set(&mut s, x, y, on);
                assert_eq!(get(&s, x, y), on);
                let bit = 1u64 << (y * 8 + x);
                assert_eq!(snapshot(&s) & !bit, before & !bit);
            }
        }
    }
}

#[test]
fn new_state_is_all_off() {
    let s = DisplayState::new();
    assert_eq!(snapshot(&s), 0);
    assert!(!get(&s, 7, 7));
}

#[test]
fn set_outside_grid_changes_nothing() {
    let mut s = DisplayState::from_bits(0x1234);
    led_matrix::set(&mut s, 8, 0, true);
    led_matrix::set(&mut s, 0, 8, true);
    led_matrix::set(&mut s, 255, 255, false);
    assert_eq!(snapshot(&s), 0x1234);
}

#[test]
fn repeated_set_is_idempotent() {
    let mut once = DisplayState::new();
    led_matrix::set(&mut once, 2, 6, true);
    let mut twice = DisplayState::new();
    led_matrix::set(&mut twice, 2, 6, true);
    led_matrix::set(&mut twice, 2, 6, true);
    assert_eq!(snapshot(&once), snapshot(&twice));
    assert_eq!(snapshot(&once), 1u64 << 50);
}

#[test]
fn last_write_per_cell_wins() {
    let mut s = DisplayState::new();
    led_matrix::set(&mut s, 0, 0, true);
    led_matrix::set(&mut s, 7, 7, true);
    led_matrix::set(&mut s, 0, 0, false);
    led_matrix::set(&mut s, 1, 0, true);
    assert_eq!(snapshot(&s), (1u64 << 63) | (1u64 << 1));
}

#[test]
fn handshake_test_vector() {
    let accept = accept_key(b"dGhlIHNhbXBsZSBub25jZQ==");
    assert_eq!(accept, b"s3pPLMBiTxaQ9kYGzzhZRbK+xOo=".to_vec());
}

#[test]
fn accept_value_from_digest() {
    let digest = [
        0xb3, 0x7a, 0x4f, 0x2c, 0xc0, 0x62, 0x4f, 0x16, 0x90, 0xf6, 0x46, 0x06, 0xcf, 0x38, 0x59,
        0x45, 0xb2, 0xbe, 0xc4, 0xea,
    ];
    assert_eq!(accept_from_digest(&digest), b"s3pPLMBiTxaQ9kYGzzhZRbK+xOo=".to_vec());
    assert_eq!(accept_from_digest(b""), Vec::<u8>::new());
    assert_eq!(accept_from_digest(b"f"), b"Zg==".to_vec());
    assert_eq!(accept_from_digest(b"fo"), b"Zm8=".to_vec());
    assert_eq!(accept_from_digest(b"foo"), b"Zm9v".to_vec());
    assert_eq!(accept_from_digest(&[0xfb, 0xff]), b"+/8=".to_vec());
}

#[test]
fn handshake_response_bytes() {
    let r = handshake_response(b"dGhlIHNhbXBsZSBub25jZQ==");
    let expected = "HTTP/1.1 101 Switching Protocols\r\nUpgrade: websocket\r\nConnection: Upgrade\r\nSec-WebSocket-Accept: s3pPLMBiTxaQ9kYGzzhZRbK+xOo=\r\n\r\n";
    assert_eq!(r, expected.as_bytes().to_vec());
    assert_eq!(switching_protocols(b"abc"), b"HTTP/1.1 101 Switching Protocols\r\nUpgrade: websocket\r\nConnection: Upgrade\r\nSec-WebSocket-Accept: abc\r\n\r\n".to_vec());
}

#[test]
fn decode_header_accepts_masked_text_and_ping() {
    assert_eq!(decode_header(0x81, 0x80 | 42), Ok(FrameHeader { opcode: 1, len: 42 }));
    assert_eq!(decode_header(0x89, 0x80), Ok(FrameHeader { opcode: 9, len: 0 }));
    assert_eq!(decode_header(0x01, 0x80 | 125), Ok(FrameHeader { opcode: 1, len: 125 }));
}

#[test]
fn decode_header_rejects_unmasked() {
    assert_eq!(decode_header(0x81, 0x05), Err(FrameError::Unmasked));
    assert_eq!(decode_header(0x89, 0x00), Err(FrameError::Unmasked));
}

#[test]
fn decode_header_rejects_too_long() {
    assert_eq!(decode_header(0x81, 0x80 | 126), Err(FrameError::TooLong));
    assert_eq!(decode_header(0x81, 0xFF), Err(FrameError::TooLong));
}

#[test]
fn decode_header_rejects_other_opcodes() {
    assert_eq!(decode_header(0x82, 0x85), Err(FrameError::UnsupportedOpcode));
    assert_eq!(decode_header(0x88, 0x80), Err(FrameError::UnsupportedOpcode));
    assert_eq!(decode_header(0x8A, 0x00), Err(FrameError::UnsupportedOpcode));
}

#[test]
fn unmask_xors_with_mask_key() {
    let body = [0x37, 0xfa, 0x21, 0x3d, 0x7f, 0x9f, 0x4d, 0x51, 0x58];
    assert_eq!(unmask(&body), b"Hello".to_vec());
    assert_eq!(unmask(&[1, 2, 3, 4]), Vec::<u8>::new());
}

#[test]
fn snapshot_frame_is_big_endian() {
    assert_eq!(
        encode_snapshot(0x0102_0304_0506_0708),
        vec![0x81, 0x08, 1, 2, 3, 4, 5, 6, 7, 8]
    );
    assert_eq!(encode_snapshot(1u64 << 43), vec![0x81, 0x08, 0, 0, 0x08, 0, 0, 0, 0, 0]);
}

#[test]
fn pong_frame_is_empty() {
    assert_eq!(encode_pong(), vec![0x8A, 0x00]);
}

const PAGE: &[u8] = b"<html><body>grid</body></html>";

fn page_bytes(page: &[u8]) -> Vec<u8> {
    let mut v = format!(
        "HTTP/1.1 200 OK\r\nContent-Type: text/html\r\nContent-Length: {}\r\n\r\n",
        page.len()
    )
    .into_bytes();
    v.extend_from_slice(page);
    v
}

#[test]
fn plain_get_serves_page() {
    for req in [
        &b"GET / HTTP/1.1\r\nHost: x\r\n\r\n"[..],
        &b"GET /index.html HTTP/1.1\r\n\r\n"[..],
        &b"GET /ws HTTP/1.1\r\nSec-WebSocket-Key: abc\r\n\r\n"[..],
        &b""[..],
    ] {
        match route(req, PAGE) {
            Route::Page(b) => assert_eq!(b, page_bytes(PAGE)),
            _ => panic!("expected the page"),
        }
    }
}

#[test]
fn page_content_length() {
    assert_eq!(page_ok(b""), page_bytes(b""));
    let big = vec![b'a'; 1234];
    let r = page_ok(&big);
    assert_eq!(r, page_bytes(&big));
    assert!(r.starts_with(b"HTTP/1.1 200 OK\r\nContent-Type: text/html\r\nContent-Length: 1234\r\n\r\n"));
}

#[test]
fn invalid_utf8_request_serves_page() {
    let req = b"GET /ws HTTP/1.1\r\nUpgrade: websocket\r\nSec-WebSocket-Key: abc\r\n\xff\r\n";
    match route(req, PAGE) {
        Route::Page(b) => assert_eq!(b, page_bytes(PAGE)),
        _ => panic!("expected the page"),
    }
}

#[test]
fn upgrade_request_gets_handshake() {
    let req = b"GET /ws HTTP/1.1\r\nHost: 192.168.4.1\r\nUpgrade: websocket\r\nConnection: Upgrade\r\nSec-WebSocket-Key:   dGhlIHNhbXBsZSBub25jZQ==  \r\nSec-WebSocket-Version: 13\r\n\r\n";
    match route(req, PAGE) {
        Route::Upgrade(b) => assert_eq!(b, handshake_response(b"dGhlIHNhbXBsZSBub25jZQ==")),
        _ => panic!("expected the handshake"),
    }
}

#[test]
fn upgrade_key_stops_at_colon_and_takes_first_line() {
    let req = b"GET /ws HTTP/1.1\r\nUpgrade: websocket\r\nX-Sec-WebSocket-Key: no\r\nSec-WebSocket-Key: k1:rest\r\nSec-WebSocket-Key: k2\r\n\r\n";
    match route(req, PAGE) {
        Route::Upgrade(b) => assert_eq!(b, handshake_response(b"k1")),
        _ => panic!("expected the handshake"),
    }
}

#[test]
fn upgrade_without_key_is_abandoned() {
    let req = b"GET /ws HTTP/1.1\r\nUpgrade: websocket\r\n\r\n";
    assert!(matches!(route(req, PAGE), Route::Abandon));
}

fn expect_read(a: Action, n: usize) {
    match a {
        Action::Read(m) => assert_eq!(m, n),
        _ => panic!("expected a read"),
    }
}

fn expect_close(r: (Phase, Action)) {
    assert_eq!(r.0, Phase::Closed);
    assert!(matches!(r.1, Action::Close));
}

#[test]
fn click_frame_sets_cell_and_pushes_snapshot() {
    let mut display = DisplayState::from_bits(1);
    let (phase, action) = open_session(snapshot(&display));
    match action {
        Action::Send(f) => assert_eq!(f, encode_snapshot(1)),
        _ => panic!("expected the initial push"),
    }
    let (phase, action) = step(phase, Event::Sent);
    expect_read(action, 2);
    let json = br#"{"x":3,"y":5,"on":true}"#;
    let (header, rest) = masked_frame(1, [0x12, 0x34, 0x56, 0x78], json);
    let (phase, action) = step(phase, Event::Received(header));
    expect_read(action, 4 + json.len());
    let (phase, action) = step(phase, Event::Received(rest));
    match action {
        Action::Parse(p) => assert_eq!(p, json.to_vec()),
        _ => panic!("expected a payload to decode"),
    }
    let (phase, action) = step(phase, Event::Parsed(Some(ClickEvent { x: 3, y: 5, on: true })));
    let click = match action {
        Action::Apply(c) => c,
        _ => panic!("expected a click to apply"),
    };
    led_matrix::set(&mut display, click.x, click.y, click.on);
    assert_eq!(snapshot(&display), 1 | (1u64 << 43));
    let (phase, action) = step(phase, Event::Applied(snapshot(&display)));
    assert_eq!(phase, Phase::AwaitingHeader);
    match action {
        Action::Send(f) => assert_eq!(f, vec![0x81, 0x08, 0, 0, 0x08, 0, 0, 0, 0, 1]),
        _ => panic!("expected the snapshot"),
    }
    let (_, action) = step(phase, Event::Sent);
    expect_read(action, 2);
}

#[test]
fn malformed_payload_keeps_session_open() {
    let display = DisplayState::from_bits(77);
    let (header, rest) = masked_frame(1, [9, 8, 7, 6], br#"{"x":3"#);
    let (phase, _) = step(Phase::AwaitingHeader, Event::Received(header));
    let (phase, _) = step(phase, Event::Received(rest));
    assert_eq!(phase, Phase::Dispatch);
    let (phase, action) = step(phase, Event::Parsed(None));
    assert_eq!(phase, Phase::AwaitingHeader);
    expect_read(action, 2);
    assert_eq!(snapshot(&display), 77);
}

#[test]
fn unmasked_frame_closes_session() {
    expect_close(step(Phase::AwaitingHeader, Event::Received(vec![0x81, 0x05])));
}

#[test]
fn oversized_frame_closes_session() {
    expect_close(step(Phase::AwaitingHeader, Event::Received(vec![0x81, 0xFE])));
}

#[test]
fn binary_frame_closes_session() {
    expect_close(step(Phase::AwaitingHeader, Event::Received(vec![0x82, 0x85])));
}

#[test]
fn ping_gets_pong() {
    let (header, rest) = masked_frame(9, [1, 2, 3, 4], b"hi");
    let (phase, action) = step(Phase::AwaitingHeader, Event::Received(header));
    expect_read(action, 6);
    let (phase, action) = step(phase, Event::Received(rest));
    assert_eq!(phase, Phase::AwaitingHeader);
    match action {
        Action::Send(f) => assert_eq!(f, vec![0x8A, 0x00]),
        _ => panic!("expected a pong"),
    }
}

#[test]
fn failures_and_stray_events_close() {
    expect_close(step(Phase::AwaitingHeader, Event::Failed));
    expect_close(step(Phase::Dispatch, Event::Failed));
    expect_close(step(Phase::Closed, Event::Sent));
    expect_close(step(Phase::AwaitingHeader, Event::Parsed(None)));
    expect_close(step(Phase::Dispatch, Event::Applied(0)));
    expect_close(step(Phase::AwaitingHeader, Event::Received(vec![0x81])));
    expect_close(step(Phase::AwaitingMaskAndPayload { opcode: 1, len: 3 }, Event::Received(vec![0; 6])));
}
