use ws_handshake::error::HandshakeError;
use ws_handshake::request::build_handshake_request;
use ws_handshake::request::parse_to_http_request;
use ws_handshake::request::UrlParts;

#[test]
fn plain_scheme_resolves_to_port_80_without_tls() {
    let (request, address, host, use_tls) =
        parse_to_http_request("ws://example.com/chat?x=1", "dGhlIHNhbXBsZSBub25jZQ==")
            .expect("a well-formed ws URL must resolve");
    assert_eq!(
        request,
        "GET /chat?x=1 HTTP/1.1\r\nHost: example.com\r\nConnection: Upgrade\r\nUpgrade: websocket\r\nSec-WebSocket-Key: dGhlIHNhbXBsZSBub25jZQ==\r\nSec-WebSocket-Version: 13\r\n\r\n"
    );
    assert_eq!(address, "example.com:80");
    assert_eq!(host, "example.com");
    assert!(!use_tls);
}

#[test]
fn secure_scheme_resolves_to_port_443_with_tls() {
    let (request, address, host, use_tls) =
        parse_to_http_request("wss://example.com/chat", "a2V5a2V5a2V5a2V5a2V5a2U=")
            .expect("a well-formed wss URL must resolve");
    assert!(request.starts_with("GET /chat HTTP/1.1\r\n"));
    assert_eq!(address, "example.com:443");
    assert_eq!(host, "example.com");
    assert!(use_tls);
}

#[test]
fn explicit_port_wins_over_the_default() {
    let (_, address, _, _) = parse_to_http_request("ws://example.com:9001/x", "k")
        .expect("a well-formed ws URL must resolve");
    assert_eq!(address, "example.com:9001");
}

#[test]
fn foreign_scheme_is_rejected() {
    assert_eq!(
        parse_to_http_request("http://example.com/", "k"),
        Err(HandshakeError::InvalidScheme)
    );
}

#[test]
fn unparseable_url_is_rejected() {
    assert_eq!(
        parse_to_http_request("not a url at all", "k"),
        Err(HandshakeError::InvalidUrl)
    );
}

#[test]
fn missing_host_is_rejected() {
    let parts = UrlParts {
        scheme: String::from("ws"),
        host: None,
        port: None,
        path: String::from("/chat"),
        query: None,
    };
    assert_eq!(
        build_handshake_request(parts, "k"),
        Err(HandshakeError::MissingHost)
    );
}
