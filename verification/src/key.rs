//! Key codec: the client handshake key and the accept token derived from it.
//!
//! The accept token is the base64 encoding of the SHA-1 digest of the key
//! followed by the fixed magic GUID of the WebSocket opening handshake.

use vstd::prelude::*;
use vstd::string::StrSliceExecFns;
use vstd::utf8::encode_utf8;
use vstd::utf8::is_ascii_chars;

use crate::search::append_slice;
use crate::search::slice_eq;

verus! {

/// The fixed GUID that the handshake appends to the client key before hashing.
pub open spec fn magic_guid() -> Seq<char> {
    "258EAFA5-E914-47DA-95CA-C5AB0DC85B11"@
}

/// The UTF-8 bytes of the magic GUID.
pub open spec fn magic_bytes() -> Seq<u8> {
    encode_utf8(magic_guid())
}

/// The SHA-1 digest of a byte sequence.
pub uninterp spec fn sha1_of(data: Seq<u8>) -> Seq<u8>;

/// The bytes of the standard, padded base64 encoding of a byte sequence.
pub uninterp spec fn base64_of(data: Seq<u8>) -> Seq<u8>;

/// The accept token owed for a handshake key: base64 of the SHA-1 digest of
/// the key bytes followed by the magic GUID.
pub open spec fn accept_token_of(key: Seq<u8>) -> Seq<u8> {
    base64_of(sha1_of(key + magic_bytes()))
}

/// `token` is exactly the accept token owed for `key`.
pub open spec fn token_matches(token: Seq<u8>, key: Seq<u8>) -> bool {
    token == accept_token_of(key)
}

/// Relies on `sha1::Sha1` through `digest::Digest::digest`: the digest is a
/// function of the input bytes alone, and is 20 bytes long.
#[verifier::external_body]
fn sha1_digest(data: &[u8]) -> (r: Vec<u8>)
    ensures
        r@ == sha1_of(data@),
        r@.len() == 20,
{
    <sha1::Sha1 as sha1::Digest>::digest(data).as_slice().to_vec()
}

/// Relies on `base64::engine::Engine::encode` with the standard padded
/// alphabet: the encoding is a function of the input bytes alone, its
/// characters are ASCII, and its length is four bytes for every three input
/// bytes, rounded up.
#[verifier::external_body]
fn base64_encode(data: &[u8]) -> (r: String)
    ensures
        encode_utf8(r@) == base64_of(data@),
        is_ascii_chars(r@),
        r@.len() == ((data@.len() + 2) / 3) * 4,
{
    base64::prelude::Engine::encode(&base64::prelude::BASE64_STANDARD, data)
}

/// Relies on `rand::random`: sixteen bytes from the thread-local
/// cryptographically secure generator. Nothing is promised of their values.
#[verifier::external_body]
fn random_key_bytes() -> (r: Vec<u8>)
    ensures
        r@.len() == 16,
{
    rand::random::<[u8; 16]>().to_vec()
}

/// The key bytes followed by the magic GUID, the exact input of the digest.
fn key_with_magic(key: &[u8]) -> (r: Vec<u8>)
    ensures
        r@ == key@ + magic_bytes(),
{
    let mut data = vstd::slice::slice_to_vec(key);
    append_slice(&mut data, "258EAFA5-E914-47DA-95CA-C5AB0DC85B11".as_bytes());
    data
}

/// The accept token owed for `key`, as raw bytes: base64 of a 20-byte
/// digest, hence always 28 bytes long.
pub fn accept_value(key: &[u8]) -> (r: Vec<u8>)
    ensures
        r@ == accept_token_of(key@),
        r@.len() == 28,
{
    let data = key_with_magic(key);
    let digest = sha1_digest(data.as_slice());
    let encoded = base64_encode(digest.as_slice());
    proof {
        vstd::utf8::is_ascii_chars_encode_utf8(encoded@);
    }
    encoded.as_str().as_bytes_vec()
}

/// The accept token owed for a key given as text, as text: base64 of a
/// 20-byte digest, hence always 28 characters long.
pub fn generate_websocket_accept_value(key: &str) -> (r: String)
    ensures
        encode_utf8(r@) == accept_token_of(encode_utf8(key@)),
        is_ascii_chars(r@),
        r@.len() == 28,
{
    let data = key_with_magic(key.as_bytes());
    let digest = sha1_digest(data.as_slice());
    base64_encode(digest.as_slice())
}

/// A fresh handshake key: sixteen random bytes, base64-encoded.
pub fn generate_websocket_key() -> (r: String)
    ensures
        exists|b: Seq<u8>| b.len() == 16 && encode_utf8(r@) == #[trigger] base64_of(b),
        r@.len() == 24,
        is_ascii_chars(r@),
{
    let bytes = random_key_bytes();
    let encoded = base64_encode(bytes.as_slice());
    proof {
        assert(encode_utf8(encoded@) == base64_of(bytes@));
    }
    encoded
}

/// Does `token` equal the accept token owed for `key`?
pub fn verify_accept_value(token: &[u8], key: &[u8]) -> (r: bool)
    ensures
        r == token_matches(token@, key@),
{
    let expected = accept_value(key);
    slice_eq(token, expected.as_slice())
}

/// The accept token is a function of the key alone: any two tokens derived
/// from the same key are equal, however often the derivation is repeated.
pub proof fn lemma_accept_value_deterministic(key: Seq<u8>, r1: Seq<u8>, r2: Seq<u8>)
    requires
        r1 == accept_token_of(key),
        r2 == accept_token_of(key),
    ensures
        r1 == r2,
{
}

/// Round trip: the accept token derived from a key always verifies against
/// that same key.
pub proof fn lemma_accept_round_trip(key: Seq<u8>)
    ensures
        token_matches(accept_token_of(key), key),
{
}

} // verus!
