use vstd::prelude::*;

verus! {

/// Every way the opening handshake can fail, for either role.
///
/// URL resolution produces `InvalidUrl`, `InvalidScheme` and `MissingHost`;
/// the transport layer maps its failures to `DialFailure` and `IOFailure`;
/// client-side response verification produces `NoUpgrade`, `InvalidAcceptKey`
/// and `MalformedResponse`; the server-side header scan produces
/// `NoSecWebsocketKey` and `InvalidHandshakeRequest`; `ProtocolError` carries
/// a frame-level failure reported after the handshake.
#[derive(Clone, Copy, Debug, PartialEq, Eq, Structural)]
pub enum HandshakeError {
    InvalidUrl,
    InvalidScheme,
    MissingHost,
    DialFailure,
    IOFailure,
    NoUpgrade,
    InvalidAcceptKey,
    MalformedResponse,
    NoSecWebsocketKey,
    InvalidHandshakeRequest,
    ProtocolError,
}

} // verus!
