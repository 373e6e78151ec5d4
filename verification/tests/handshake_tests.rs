use ws_handshake::error::HandshakeError;
use ws_handshake::handshake::build_accept_response;
use ws_handshake::handshake::verify_handshake_response;
use ws_handshake::key::accept_value;
use ws_handshake::key::generate_websocket_accept_value;
use ws_handshake::key::generate_websocket_key;
use ws_handshake::key::verify_accept_value;
use ws_handshake::scan::RawHeaderBuffer;
use ws_handshake::scan::RequestExt;
use ws_handshake::scan::ScanEvent;
use ws_handshake::scan::ScanStep;

const RFC_KEY: &[u8] = b"dGhlIHNhbXBsZSBub25jZQ==";
const RFC_ACCEPT: &[u8] = b"s3pPLMBiTxaQ9kYGzzhZRbK+xOo=";

#[test]
fn accept_value_is_deterministic() {
    let first = accept_value(RFC_KEY);
    let second = accept_value(RFC_KEY);
    assert_eq!(first, second);
}

#[test]
fn accept_value_matches_rfc_example() {
    assert_eq!(accept_value(RFC_KEY).as_slice(), RFC_ACCEPT);
    let text = generate_websocket_accept_value("dGhlIHNhbXBsZSBub25jZQ==");
    assert_eq!(text, "s3pPLMBiTxaQ9kYGzzhZRbK+xOo=");
}

#[test]
fn accept_value_round_trip() {
    let key = generate_websocket_key();
    let token = accept_value(key.as_bytes());
    assert!(verify_accept_value(token.as_slice(), key.as_bytes()));
    assert!(!verify_accept_value(token.as_slice(), RFC_KEY));
    let other = accept_value(RFC_KEY);
    assert!(!verify_accept_value(other.as_slice(), key.as_bytes()));
}

#[test]
fn generated_key_is_base64_of_sixteen_bytes() {
    let key = generate_websocket_key();
    assert_eq!(key.len(), 24);
    assert!(key.as_bytes().ends_with(b"=="));
    assert!(key.is_ascii());
}

#[test]
fn server_scan_finds_rfc_key() {
    let request = b"GET /chat HTTP/1.1\r\nHost: server.example.com\r\nUpgrade: websocket\r\nConnection: Upgrade\r\nSec-WebSocket-Key: dGhlIHNhbXBsZSBub25jZQ==\r\nSec-WebSocket-Version: 13\r\n\r\n";
    let mut buffer = RawHeaderBuffer::new();
    match buffer.scan_step(ScanEvent::Bytes(request.to_vec())) {
        ScanStep::Found(key) => {
            assert_eq!(key.as_slice(), RFC_KEY);
            assert_eq!(accept_value(key.as_slice()).as_slice(), RFC_ACCEPT);
        }
        _ => panic!("expected the scan to find the key"),
    }
}

#[test]
fn server_scan_waits_for_complete_line() {
    let mut buffer = RawHeaderBuffer::new();
    let first = buffer.scan_step(ScanEvent::Bytes(b"Sec-WebSocket-Key: dGhlIHNh".to_vec()));
    assert!(matches!(first, ScanStep::Continue));
    let second = buffer.scan_step(ScanEvent::Bytes(b"bXBsZSBub25jZQ==\r\n".to_vec()));
    match second {
        ScanStep::Found(key) => assert_eq!(key.as_slice(), RFC_KEY),
        _ => panic!("expected the scan to find the key once the line completed"),
    }
}

#[test]
fn server_scan_over_ceiling_fails() {
    let mut buffer = RawHeaderBuffer::new();
    let step = buffer.scan_step(ScanEvent::Bytes(vec![b'a'; 20000]));
    assert!(matches!(
        step,
        ScanStep::Failed(HandshakeError::NoSecWebsocketKey)
    ));
}

#[test]
fn server_scan_over_ceiling_in_small_reads_fails() {
    let mut buffer = RawHeaderBuffer::new();
    let mut last = ScanStep::Continue;
    for _ in 0..20 {
        last = buffer.scan_step(ScanEvent::Bytes(vec![b'x'; 1000]));
    }
    assert!(matches!(
        last,
        ScanStep::Failed(HandshakeError::NoSecWebsocketKey)
    ));
}

#[test]
fn server_scan_timeout_fails() {
    let mut buffer = RawHeaderBuffer::new();
    let step = buffer.scan_step(ScanEvent::TimedOut);
    assert!(matches!(
        step,
        ScanStep::Failed(HandshakeError::NoSecWebsocketKey)
    ));
}

#[test]
fn server_scan_closed_stream_fails() {
    let mut buffer = RawHeaderBuffer::new();
    let step = buffer.scan_step(ScanEvent::Closed);
    assert!(matches!(
        step,
        ScanStep::Failed(HandshakeError::NoSecWebsocketKey)
    ));
}

#[test]
fn client_rejects_response_without_upgrade() {
    let response = b"HTTP/1.1 400 Bad Request\r\n\r\n";
    assert_eq!(
        verify_handshake_response(response, "dGhlIHNhbXBsZSBub25jZQ=="),
        Err(HandshakeError::NoUpgrade)
    );
}

#[test]
fn client_rejects_wrong_accept_value() {
    let response =
        b"HTTP/1.1 101 Switching Protocols\r\nConnection: Upgrade\r\nUpgrade: websocket\r\nSec-WebSocket-Accept: bm90IHRoZSByaWdodCB2YWx1ZQ=\r\n\r\n";
    assert_eq!(
        verify_handshake_response(response, "dGhlIHNhbXBsZSBub25jZQ=="),
        Err(HandshakeError::InvalidAcceptKey)
    );
}

#[test]
fn client_rejects_non_utf8_response() {
    let response = [0xffu8, 0xfe, 0x80, 0x00];
    assert_eq!(
        verify_handshake_response(&response, "dGhlIHNhbXBsZSBub25jZQ=="),
        Err(HandshakeError::MalformedResponse)
    );
}

#[test]
fn client_accepts_correct_response() {
    let response = build_accept_response(RFC_KEY);
    assert_eq!(
        verify_handshake_response(response.as_slice(), "dGhlIHNhbXBsZSBub25jZQ=="),
        Ok(())
    );
}

#[test]
fn accept_response_is_byte_exact() {
    let response = build_accept_response(RFC_KEY);
    let expected = b"HTTP/1.1 101 Switching Protocols\r\nConnection: Upgrade\r\nUpgrade: websocket\r\nSec-WebSocket-Accept: s3pPLMBiTxaQ9kYGzzhZRbK+xOo=\r\n\r\n";
    assert_eq!(response.as_slice(), expected.as_slice());
}

#[test]
fn header_lookup_is_case_insensitive() {
    let request = b"GET /chat HTTP/1.1\r\nHost: server.example.com\r\nSec-WebSocket-Key: dGhlIHNhbXBsZSBub25jZQ==\r\n\r\n";
    let mut buffer = RawHeaderBuffer::new();
    let _ = buffer.scan_step(ScanEvent::Bytes(request.to_vec()));
    assert_eq!(
        buffer.get_header_value("host"),
        Some(String::from("server.example.com"))
    );
    assert_eq!(
        buffer.get_header_value("HOST"),
        Some(String::from("server.example.com"))
    );
    assert_eq!(
        buffer.get_header_value("sec-websocket-key"),
        Some(String::from("dGhlIHNhbXBsZSBub25jZQ=="))
    );
    assert_eq!(buffer.get_header_value("Authorization"), None);
}

#[test]
fn header_lookup_matches_names_only_at_line_starts() {
    let mut buffer = RawHeaderBuffer::new();
    let _ = buffer.scan_step(ScanEvent::Bytes(b"GET / HTTP/1.1\r\nx-host: a\r\n\r\n".to_vec()));
    assert_eq!(buffer.get_header_value("host"), None);
    assert_eq!(buffer.get_header_value("x-host"), Some(String::from("a")));
}

#[test]
fn header_lookup_ignores_names_inside_values() {
    let mut buffer = RawHeaderBuffer::new();
    let _ = buffer.scan_step(ScanEvent::Bytes(
        b"GET / HTTP/1.1\r\nReferer: https://host: 80\r\n\r\n".to_vec(),
    ));
    assert_eq!(buffer.get_header_value("host"), None);
}

#[test]
fn header_lookup_trims_trailing_whitespace() {
    let mut buffer = RawHeaderBuffer::new();
    let _ = buffer.scan_step(ScanEvent::Bytes(b"Host:   example.com  \t\r\n".to_vec()));
    assert_eq!(
        buffer.get_header_value("host"),
        Some(String::from("example.com"))
    );
}

#[test]
fn header_lookup_waits_for_a_terminated_line() {
    let mut buffer = RawHeaderBuffer::new();
    let _ = buffer.scan_step(ScanEvent::Bytes(b"Host: example.co".to_vec()));
    assert_eq!(buffer.get_header_value("host"), None);
    let _ = buffer.scan_step(ScanEvent::Bytes(b"m\r\n".to_vec()));
    assert_eq!(
        buffer.get_header_value("host"),
        Some(String::from("example.com"))
    );
}

#[test]
fn accept_values_are_28_bytes() {
    assert_eq!(accept_value(RFC_KEY).len(), 28);
    let key = generate_websocket_key();
    assert_eq!(accept_value(key.as_bytes()).len(), 28);
    assert_eq!(generate_websocket_accept_value(&key).len(), 28);
}

#[test]
fn handshake_end_to_end() {
    let key = generate_websocket_key();
    let (request, address, host, use_tls) =
        ws_handshake::request::parse_to_http_request("ws://localhost:9001/chat", &key)
            .expect("a well-formed URL must resolve");
    assert_eq!(address, "localhost:9001");
    assert_eq!(host, "localhost");
    assert!(!use_tls);

    let mut buffer = RawHeaderBuffer::new();
    let server_key = match buffer.scan_step(ScanEvent::Bytes(request.into_bytes())) {
        ScanStep::Found(k) => k,
        _ => panic!("the server must find the key the client sent"),
    };
    assert_eq!(server_key.as_slice(), key.as_bytes());

    let response = build_accept_response(server_key.as_slice());
    assert_eq!(verify_handshake_response(response.as_slice(), &key), Ok(()));
}
