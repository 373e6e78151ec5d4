//! The two ends of the opening handshake that work on plain bytes: the
//! server's fixed 101 response, and the client's verification of a response
//! against the key it sent. Reading and writing those bytes belongs to the
//! caller.

use vstd::prelude::*;
use vstd::string::StrSliceExecFns;
use vstd::utf8::encode_utf8;
use vstd::utf8::valid_utf8;

use crate::error::HandshakeError;
use crate::key::accept_token_of;
use crate::key::accept_value;
use crate::key::generate_websocket_accept_value;
use crate::search::append_slice;
use crate::search::contains_bytes;
use crate::search::contains_subseq;
use crate::search::match_at;

verus! {

/// Cap on the response bytes a client inspects: enough for a minimal
/// handshake response with no extension headers. Anything past the cap is
/// deliberately not read, which bounds the handshake response size.
pub const CLIENT_RESPONSE_CAP: usize = 206;

/// The status-line marker whose presence means the peer agreed to upgrade.
pub open spec fn switching_bytes() -> Seq<u8> {
    encode_utf8("101 Switching Protocols"@)
}

/// The server's successful handshake response for a client key: the fixed
/// 101 template with the accept token substituted in.
pub open spec fn accept_response_spec(key: Seq<u8>) -> Seq<u8> {
    encode_utf8("HTTP/1.1 "@) + switching_bytes() + encode_utf8(
        "\r\nConnection: Upgrade\r\nUpgrade: websocket\r\nSec-WebSocket-Accept: "@,
    ) + accept_token_of(key) + encode_utf8("\r\n\r\n"@)
}

/// Builds the server's handshake response for the client key, byte-exact.
pub fn build_accept_response(key: &[u8]) -> (r: Vec<u8>)
    ensures
        r@ == accept_response_spec(key@),
{
    let mut out: Vec<u8> = Vec::new();
    append_slice(&mut out, "HTTP/1.1 ".as_bytes());
    append_slice(&mut out, "101 Switching Protocols".as_bytes());
    append_slice(
        &mut out,
        "\r\nConnection: Upgrade\r\nUpgrade: websocket\r\nSec-WebSocket-Accept: ".as_bytes(),
    );
    let token = accept_value(key);
    append_slice(&mut out, token.as_slice());
    append_slice(&mut out, "\r\n\r\n".as_bytes());
    proof {
        assert(out@ =~= accept_response_spec(key@));
    }
    out
}

/// Relies on `core::str::from_utf8`: it accepts exactly the valid UTF-8
/// byte sequences.
#[verifier::external_body]
fn utf8_check(b: &[u8]) -> (r: bool)
    ensures
        r == valid_utf8(b@),
{
    core::str::from_utf8(b).is_ok()
}

/// What a client makes of the response bytes it read, given the key it sent:
/// `MalformedResponse` when the bytes are not UTF-8 text, `NoUpgrade` when
/// the 101 status marker is missing, `InvalidAcceptKey` when the accept
/// token owed for the key does not appear verbatim, and success otherwise.
pub open spec fn verify_response_spec(resp: Seq<u8>, key: Seq<char>) -> Result<
    (),
    HandshakeError,
> {
    if !valid_utf8(resp) {
        Err(HandshakeError::MalformedResponse)
    } else if !contains_bytes(resp, switching_bytes()) {
        Err(HandshakeError::NoUpgrade)
    } else if !contains_bytes(resp, accept_token_of(encode_utf8(key))) {
        Err(HandshakeError::InvalidAcceptKey)
    } else {
        Ok(())
    }
}

/// Checks a server's response against the key this client sent, exactly as
/// `verify_response_spec` says.
pub fn verify_handshake_response(response: &[u8], key: &str) -> (r: Result<(), HandshakeError>)
    ensures
        r == verify_response_spec(response@, key@),
{
    if !utf8_check(response) {
        return Err(HandshakeError::MalformedResponse);
    }
    if !contains_subseq(response, "101 Switching Protocols".as_bytes()) {
        return Err(HandshakeError::NoUpgrade);
    }
    let accept = generate_websocket_accept_value(key);
    let accept_bytes = accept.as_str().as_bytes_vec();
    if !contains_subseq(response, accept_bytes.as_slice()) {
        return Err(HandshakeError::InvalidAcceptKey);
    }
    Ok(())
}

/// Agreement of the two ends: the response a server builds for the key it
/// extracted verifies at the client that sent that key. Stated for accept
/// tokens that are UTF-8 text, which the base64 encoding always yields.
pub proof fn lemma_server_response_verifies(key: Seq<u8>, client_key: Seq<char>)
    requires
        encode_utf8(client_key) == key,
        valid_utf8(accept_token_of(key)),
    ensures
        verify_response_spec(accept_response_spec(key), client_key) == Ok::<(), HandshakeError>(()),
{
    broadcast use vstd::utf8::encode_utf8_valid_utf8;
    broadcast use vstd::utf8::valid_utf8_concat;

    let a = encode_utf8("HTTP/1.1 "@);
    let sw = switching_bytes();
    let b = encode_utf8("\r\nConnection: Upgrade\r\nUpgrade: websocket\r\nSec-WebSocket-Accept: "@);
    let tok = accept_token_of(key);
    let resp = accept_response_spec(key);
    assert(valid_utf8(a + sw));
    assert(valid_utf8(a + sw + b));
    assert(valid_utf8(a + sw + b + tok));
    assert(valid_utf8(resp));
    assert(match_at(resp, sw, a.len() as int)) by {
        assert(resp.subrange(a.len() as int, (a.len() + sw.len()) as int) =~= sw);
    }
    let off = a.len() + sw.len() + b.len();
    assert(match_at(resp, tok, off as int)) by {
        assert(resp.subrange(off as int, (off + tok.len()) as int) =~= tok);
    }
}

} // verus!
