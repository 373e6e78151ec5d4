//! Server-side header scan: accumulate inbound bytes under a size ceiling,
//! watch for the `Sec-WebSocket-Key:` marker, and extract the key token from
//! the completed header line. Timeouts and reads belong to the caller; this
//! module only decides what each observed event means.

use vstd::prelude::*;
use vstd::utf8::decode_utf8;
use vstd::utf8::encode_utf8;
use vstd::utf8::valid_utf8;

use crate::error::HandshakeError;
use crate::search::contains_bytes;
use crate::search::find_anchored_bytes;
use crate::search::find_anchored_subsequence;
use crate::search::find_break_from;
use crate::search::find_bytes;
use crate::search::find_line_break;
use crate::search::find_space;
use crate::search::find_space_from;
use crate::search::find_subsequence;
use crate::search::lemma_find_anchored_from_some;
use crate::search::lemma_find_from_some;
use crate::search::rstrip_spaces;
use crate::search::rstrip_spaces_from;
use crate::search::skip_spaces;
use crate::search::skip_spaces_from;

verus! {

/// Ceiling on the bytes accumulated while looking for the key header: a peer
/// that sends more than this without a usable key line is rejected.
pub const SCAN_CEILING: usize = 16384;

/// Seconds a single read may stall before the scan gives up. The bound is
/// per read attempt, not for the whole scan: a peer that keeps every single
/// read just under it can stall the acceptor indefinitely, a documented
/// limitation of the per-read policy.
pub const SCAN_READ_TIMEOUT_SECS: u64 = 10;

/// The literal marker whose first occurrence carries the handshake key.
pub open spec fn key_marker_bytes() -> Seq<u8> {
    encode_utf8("Sec-WebSocket-Key:"@)
}

/// The key token in `buf`, if a complete, usable key line has arrived: the
/// first whitespace-delimited token after the first occurrence of the marker,
/// provided the line it sits on is already terminated.
pub open spec fn extract_key_spec(buf: Seq<u8>) -> Option<Seq<u8>> {
    match find_bytes(buf, key_marker_bytes()) {
        None => None,
        Some(m) => {
            let after = m + key_marker_bytes().len();
            match find_break_from(buf, after) {
                None => None,
                Some(le) => {
                    let ts = skip_spaces_from(buf, after, le);
                    let te = find_space_from(buf, ts, le);
                    if ts < te {
                        Some(buf.subrange(ts, te))
                    } else {
                        None
                    }
                },
            }
        },
    }
}

/// Runtime counterpart of `extract_key_spec`.
pub fn extract_key(buf: &[u8]) -> (r: Option<Vec<u8>>)
    ensures
        r is Some <==> extract_key_spec(buf@) is Some,
        r matches Some(v) ==> extract_key_spec(buf@) == Some(v@),
{
    let marker = "Sec-WebSocket-Key:";
    let mb = marker.as_bytes();
    proof {
        assert(mb@ == key_marker_bytes());
    }
    match find_subsequence(buf, mb) {
        None => None,
        Some(m) => {
            let total = buf.len();
            proof {
                lemma_find_from_some(buf@, mb@, 0);
                assert(m + mb@.len() <= total);
            }
            let after = m + mb.len();
            match find_line_break(buf, after) {
                None => None,
                Some(le) => {
                    let ts = skip_spaces(buf, after, le);
                    let te = find_space(buf, ts, le);
                    if ts < te {
                        Some(vstd::slice::slice_to_vec(vstd::slice::slice_subrange(buf, ts, te)))
                    } else {
                        None
                    }
                },
            }
        },
    }
}

/// Bound of the scan: bytes that nowhere contain the key marker never yield
/// a key. With `scan_step`'s contract this says that a peer that never sends
/// the marker is rejected with `NoSecWebsocketKey` as soon as its bytes pass
/// the ceiling, and is never mistaken for a successful handshake.
pub proof fn lemma_no_marker_no_key(buf: Seq<u8>)
    requires
        !contains_bytes(buf, key_marker_bytes()),
    ensures
        extract_key_spec(buf) is None,
{
    if find_bytes(buf, key_marker_bytes()) is Some {
        lemma_find_from_some(buf, key_marker_bytes(), 0);
    }
}

/// The growable byte accumulator of the server-side scan.
pub struct RawHeaderBuffer {
    buf: Vec<u8>,
}

impl View for RawHeaderBuffer {
    type V = Seq<u8>;

    closed spec fn view(&self) -> Seq<u8> {
        self.buf@
    }
}

/// One observation made while scanning: a successful read, a read that timed
/// out, or a peer that closed the stream (a zero-byte read).
pub enum ScanEvent {
    Bytes(Vec<u8>),
    TimedOut,
    Closed,
}

/// What an observation means for the scan: the key was found, more bytes are
/// needed, or the attempt is over with an error.
pub enum ScanStep {
    Found(Vec<u8>),
    Continue,
    Failed(HandshakeError),
}

impl RawHeaderBuffer {
    /// An empty accumulator.
    pub fn new() -> (r: Self)
        ensures
            r@ == Seq::<u8>::empty(),
    {
        RawHeaderBuffer { buf: Vec::new() }
    }

    /// How many bytes have accumulated.
    pub fn byte_len(&self) -> (n: usize)
        ensures
            n == self@.len(),
    {
        self.buf.len()
    }

    /// Advances the scan by one observation. A timeout or a closed stream
    /// ends the attempt with `NoSecWebsocketKey`. New bytes are appended and
    /// searched: a usable key ends the scan successfully; otherwise the
    /// attempt goes on unless the accumulated size is over the ceiling, which
    /// also ends it with `NoSecWebsocketKey`.
    pub fn scan_step(&mut self, event: ScanEvent) -> (r: ScanStep)
        ensures
            match event {
                ScanEvent::Bytes(b) => {
                    let nb = old(self)@ + b@;
                    &&& final(self)@ == nb
                    &&& match extract_key_spec(nb) {
                        Some(k) => r matches ScanStep::Found(kv) && kv@ == k,
                        None => if nb.len() > SCAN_CEILING {
                            r == ScanStep::Failed(HandshakeError::NoSecWebsocketKey)
                        } else {
                            r == ScanStep::Continue
                        },
                    }
                },
                _ => final(self)@ == old(self)@ && r == ScanStep::Failed(
                    HandshakeError::NoSecWebsocketKey,
                ),
            },
    {
        match event {
            ScanEvent::Bytes(b) => {
                let mut chunk = b;
                self.buf.append(&mut chunk);
                match extract_key(self.buf.as_slice()) {
                    Some(k) => ScanStep::Found(k),
                    None => {
                        if self.buf.len() > SCAN_CEILING {
                            ScanStep::Failed(HandshakeError::NoSecWebsocketKey)
                        } else {
                            ScanStep::Continue
                        }
                    },
                }
            },
            ScanEvent::TimedOut => ScanStep::Failed(HandshakeError::NoSecWebsocketKey),
            ScanEvent::Closed => ScanStep::Failed(HandshakeError::NoSecWebsocketKey),
        }
    }
}

/// An upper-case ASCII letter folded to lower case; every other byte kept.
pub open spec fn lower_byte(b: u8) -> u8 {
    if 65 <= b <= 90 {
        (b + 32) as u8
    } else {
        b
    }
}

/// A byte sequence folded to lower case, byte by byte.
pub open spec fn lower_bytes(s: Seq<u8>) -> Seq<u8> {
    s.map_values(|b: u8| lower_byte(b))
}

/// Runtime counterpart of `lower_bytes`.
fn to_lower_vec(s: &[u8]) -> (r: Vec<u8>)
    ensures
        r@ == lower_bytes(s@),
{
    let n = s.len();
    let mut out: Vec<u8> = Vec::new();
    let mut i: usize = 0;
    while i < n
        invariant
            i <= n,
            n == s@.len(),
            out@.len() == i,
            forall|k: int| 0 <= k < i ==> out@[k] == lower_byte(s@[k]),
        decreases n - i,
    {
        let b = s[i];
        if 65 <= b && b <= 90 {
            out.push(b + 32);
        } else {
            out.push(b);
        }
        i += 1;
    }
    proof {
        assert(out@ =~= lower_bytes(s@));
    }
    out
}

/// The value of the header named case-insensitively by `name` in the raw
/// bytes `buf`: the rest of the line after the first occurrence of `name`
/// followed by a colon that begins a line, with surrounding whitespace
/// dropped. A match anywhere else (inside another header's name or value)
/// does not count, and a header line that is not yet terminated yields
/// nothing, as with the key scan.
pub open spec fn header_value_spec(buf: Seq<u8>, name: Seq<u8>) -> Option<Seq<u8>> {
    let lbuf = lower_bytes(buf);
    let marker = lower_bytes(name).push(58);
    match find_anchored_bytes(lbuf, marker) {
        None => None,
        Some(m) => {
            let after = m + marker.len();
            match find_break_from(buf, after) {
                None => None,
                Some(le) => {
                    let ts = skip_spaces_from(buf, after, le);
                    Some(buf.subrange(ts, rstrip_spaces_from(buf, ts, le)))
                },
            }
        },
    }
}

/// What `String::from_utf8_lossy` makes of a byte sequence.
pub uninterp spec fn lossy_chars_of(b: Seq<u8>) -> Seq<char>;

/// Relies on `String::from_utf8_lossy`: the result is a function of the
/// bytes alone, and on valid UTF-8 it is exactly their decoding.
#[verifier::external_body]
fn utf8_lossy(b: &[u8]) -> (r: String)
    ensures
        r@ == lossy_chars_of(b@),
        valid_utf8(b@) ==> r@ == decode_utf8(b@),
{
    String::from_utf8_lossy(b).into_owned()
}

/// Header lookup on a raw, unparsed request.
pub trait RequestExt {
    /// The raw bytes the lookup reads.
    spec fn raw_bytes(&self) -> Seq<u8>;

    /// The value of the header named `header_name`, matched at a line start
    /// without regard to ASCII case, decoded leniently to text.
    fn get_header_value(&self, header_name: &str) -> (r: Option<String>)
        ensures
            r is Some <==> header_value_spec(self.raw_bytes(), encode_utf8(header_name@)) is Some,
            r matches Some(s) ==> s@ == lossy_chars_of(
                header_value_spec(self.raw_bytes(), encode_utf8(header_name@)).unwrap(),
            ),
    ;
}

impl RequestExt for RawHeaderBuffer {
    open spec fn raw_bytes(&self) -> Seq<u8> {
        self@
    }

    fn get_header_value(&self, header_name: &str) -> (r: Option<String>) {
        let lbuf = to_lower_vec(self.buf.as_slice());
        let mut marker = to_lower_vec(header_name.as_bytes());
        marker.push(58);
        proof {
            assert(marker@ == lower_bytes(encode_utf8(header_name@)).push(58));
        }
        match find_anchored_subsequence(lbuf.as_slice(), marker.as_slice()) {
            None => None,
            Some(m) => {
                let total = lbuf.len();
                proof {
                    lemma_find_anchored_from_some(lbuf@, marker@, 0);
                    assert(m + marker@.len() <= total);
                }
                let after = m + marker.len();
                match find_line_break(self.buf.as_slice(), after) {
                    None => None,
                    Some(le) => {
                        let ts = skip_spaces(self.buf.as_slice(), after, le);
                        let te = rstrip_spaces(self.buf.as_slice(), ts, le);
                        let value = vstd::slice::slice_to_vec(
                            vstd::slice::slice_subrange(self.buf.as_slice(), ts, te),
                        );
                        Some(utf8_lossy(value.as_slice()))
                    },
                }
            },
        }
    }
}

} // verus!
