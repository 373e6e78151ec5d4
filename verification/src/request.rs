//! Endpoint resolver: turns a `ws://` or `wss://` URL into the handshake
//! request text, the address to dial, the host name, and a TLS flag.

use vstd::prelude::*;
use vstd::string::StrSliceExecFns;
use vstd::string::StringExecFns;
use vstd::utf8::decode_utf8;
use vstd::utf8::encode_utf8;

use crate::error::HandshakeError;
use crate::search::slice_eq;

verus! {

/// What the resolver reads out of a URL, as mathematical values.
#[verifier::ext_equal]
pub ghost struct UrlModel {
    pub scheme: Seq<char>,
    pub host: Option<Seq<char>>,
    pub port: Option<u16>,
    pub path: Seq<char>,
    pub query: Option<Seq<char>>,
}

/// The decomposition of a URL string, or `None` when it does not parse.
pub uninterp spec fn url_model_of(s: Seq<char>) -> Option<UrlModel>;

/// What the resolver reads out of a URL, as runtime values.
pub struct UrlParts {
    pub scheme: String,
    pub host: Option<String>,
    pub port: Option<u16>,
    pub path: String,
    pub query: Option<String>,
}

/// The model that a set of runtime parts stands for.
pub open spec fn parts_model(p: UrlParts) -> UrlModel {
    UrlModel {
        scheme: p.scheme@,
        host: match p.host {
            Some(h) => Some(h@),
            None => None,
        },
        port: p.port,
        path: p.path@,
        query: match p.query {
            Some(q) => Some(q@),
            None => None,
        },
    }
}

/// Relies on `url::Url::parse` and the accessors `scheme`, `host_str`,
/// `port`, `path` and `query`: parsing is a function of the input string
/// alone, and the parts below are exactly what those accessors return.
#[verifier::external_body]
fn parse_url(s: &str) -> (r: Option<UrlParts>)
    ensures
        r is Some <==> url_model_of(s@) is Some,
        r matches Some(p) ==> ({
            let m = url_model_of(s@).unwrap();
            &&& p.scheme@ == m.scheme
            &&& (p.host is Some <==> m.host is Some)
            &&& (p.host matches Some(h) ==> h@ == m.host.unwrap())
            &&& p.port == m.port
            &&& p.path@ == m.path
            &&& (p.query is Some <==> m.query is Some)
            &&& (p.query matches Some(q) ==> q@ == m.query.unwrap())
        }),
{
    match url::Url::parse(s) {
        Err(_) => None,
        Ok(u) => Some(
            UrlParts {
                scheme: u.scheme().to_string(),
                host: u.host_str().map(|h| h.to_string()),
                port: u.port(),
                path: u.path().to_string(),
                query: u.query().map(|q| q.to_string()),
            },
        ),
    }
}

/// Are two string slices equal, character for character?
pub fn str_eq(a: &str, b: &str) -> (r: bool)
    ensures
        r == (a@ == b@),
{
    let r = slice_eq(a.as_bytes(), b.as_bytes());
    proof {
        broadcast use vstd::utf8::encode_utf8_decode_utf8;

        if encode_utf8(a@) == encode_utf8(b@) {
            assert(decode_utf8(encode_utf8(a@)) == decode_utf8(encode_utf8(b@)));
        }
    }
    r
}

/// The decimal digit `d` as a character.
pub open spec fn digit_char(d: int) -> char {
    if d == 0 {
        '0'
    } else if d == 1 {
        '1'
    } else if d == 2 {
        '2'
    } else if d == 3 {
        '3'
    } else if d == 4 {
        '4'
    } else if d == 5 {
        '5'
    } else if d == 6 {
        '6'
    } else if d == 7 {
        '7'
    } else if d == 8 {
        '8'
    } else {
        '9'
    }
}

/// The decimal digits of `n`, most significant first.
pub open spec fn dec_chars(n: int) -> Seq<char>
    decreases n,
{
    if n < 10 {
        seq![digit_char(n)]
    } else {
        dec_chars(n / 10).push(digit_char(n % 10))
    }
}

/// The single-character text of the decimal digit `d`.
fn digit_str(d: u16) -> (r: &'static str)
    requires
        d < 10,
    ensures
        r@ == seq![digit_char(d as int)],
{
    if d == 0 {
        proof {
            reveal_strlit("0");
            assert("0"@ =~= seq![digit_char(0int)]);
        }
        "0"
    } else if d == 1 {
        proof {
            reveal_strlit("1");
            assert("1"@ =~= seq![digit_char(1int)]);
        }
        "1"
    } else if d == 2 {
        proof {
            reveal_strlit("2");
            assert("2"@ =~= seq![digit_char(2int)]);
        }
        "2"
    } else if d == 3 {
        proof {
            reveal_strlit("3");
            assert("3"@ =~= seq![digit_char(3int)]);
        }
        "3"
    } else if d == 4 {
        proof {
            reveal_strlit("4");
            assert("4"@ =~= seq![digit_char(4int)]);
        }
        "4"
    } else if d == 5 {
        proof {
            reveal_strlit("5");
            assert("5"@ =~= seq![digit_char(5int)]);
        }
        "5"
    } else if d == 6 {
        proof {
            reveal_strlit("6");
            assert("6"@ =~= seq![digit_char(6int)]);
        }
        "6"
    } else if d == 7 {
        proof {
            reveal_strlit("7");
            assert("7"@ =~= seq![digit_char(7int)]);
        }
        "7"
    } else if d == 8 {
        proof {
            reveal_strlit("8");
            assert("8"@ =~= seq![digit_char(8int)]);
        }
        "8"
    } else {
        proof {
            reveal_strlit("9");
            assert("9"@ =~= seq![digit_char(9int)]);
        }
        "9"
    }
}

/// Appends the decimal digits of `n` to `s`.
pub fn push_dec(s: &mut String, n: u16)
    ensures
        final(s)@ == old(s)@ + dec_chars(n as int),
    decreases n,
{
    if n >= 10 {
        push_dec(s, n / 10);
    }
    let d = n % 10;
    s.append(digit_str(d));
    proof {
        if n < 10 {
            assert(s@ =~= old(s)@ + dec_chars(n as int));
        } else {
            assert(dec_chars(n as int) == dec_chars(n as int / 10).push(digit_char(n as int % 10)));
            assert(s@ =~= old(s)@ + dec_chars(n as int));
        }
    }
}

/// The full upgrade request owed for a path, host and key.
pub open spec fn request_text(path_query: Seq<char>, host: Seq<char>, key: Seq<char>) -> Seq<char> {
    "GET "@ + path_query + " HTTP/1.1\r\nHost: "@ + host
        + "\r\nConnection: Upgrade\r\nUpgrade: websocket\r\nSec-WebSocket-Key: "@ + key
        + "\r\nSec-WebSocket-Version: 13\r\n\r\n"@
}

/// What resolving a URL model with a handshake key yields: the request text,
/// the host with its effective port for dialing, the bare host, and whether
/// the scheme asks for TLS. The effective port is the one the URL names, or
/// 443 for `wss` and 80 for `ws`.
pub open spec fn resolve_spec(m: UrlModel, key: Seq<char>) -> Result<
    (Seq<char>, Seq<char>, Seq<char>, bool),
    HandshakeError,
> {
    if m.scheme != "ws"@ && m.scheme != "wss"@ {
        Err(HandshakeError::InvalidScheme)
    } else if m.host is None {
        Err(HandshakeError::MissingHost)
    } else {
        let tls = m.scheme == "wss"@;
        let port: u16 = if m.port is Some {
            m.port.unwrap()
        } else if tls {
            443
        } else {
            80
        };
        let host = m.host.unwrap();
        let path_query = if m.query is Some {
            m.path + "?"@ + m.query.unwrap()
        } else {
            m.path
        };
        Ok(
            (
                request_text(path_query, host, key),
                host + ":"@ + dec_chars(port as int),
                host,
                tls,
            ),
        )
    }
}

/// Resolves already-split URL parts into the upgrade request, exactly as
/// `resolve_spec` says.
pub fn build_handshake_request(parts: UrlParts, key: &str) -> (r: Result<
    (String, String, String, bool),
    HandshakeError,
>)
    ensures
        ({
            let m = parts_model(parts);
            match resolve_spec(m, key@) {
                Ok(t) => r matches Ok(v) && v.0@ == t.0 && v.1@ == t.1 && v.2@ == t.2 && v.3
                    == t.3,
                Err(e) => r matches Err(e2) && e2 == e,
            }
        }),
{
    let is_ws = str_eq(parts.scheme.as_str(), "ws");
    let is_wss = str_eq(parts.scheme.as_str(), "wss");
    if !is_ws && !is_wss {
        return Err(HandshakeError::InvalidScheme);
    }
    let use_tls = is_wss;
    let host = match parts.host {
        Some(h) => h,
        None => {
            return Err(HandshakeError::MissingHost);
        },
    };
    let port: u16 = match parts.port {
        Some(p) => p,
        None => if use_tls {
            443
        } else {
            80
        },
    };
    let mut path_query = parts.path;
    match parts.query {
        Some(q) => {
            path_query.append("?");
            path_query.append(q.as_str());
        },
        None => {},
    }
    let mut host_port = host.clone();
    host_port.append(":");
    push_dec(&mut host_port, port);
    let mut req = String::new();
    req.append("GET ");
    req.append(path_query.as_str());
    req.append(" HTTP/1.1\r\nHost: ");
    req.append(host.as_str());
    req.append("\r\nConnection: Upgrade\r\nUpgrade: websocket\r\nSec-WebSocket-Key: ");
    req.append(key);
    req.append("\r\nSec-WebSocket-Version: 13\r\n\r\n");
    proof {
        let t = resolve_spec(parts_model(parts), key@).unwrap();
        assert(req@ =~= t.0);
        assert(host_port@ =~= t.1);
    }
    Ok((req, host_port, host, use_tls))
}

/// Resolves a URL string with a handshake key: `InvalidUrl` when the URL does
/// not parse, otherwise exactly what `resolve_spec` says of its model.
pub fn parse_to_http_request(ws_url: &str, key: &str) -> (r: Result<
    (String, String, String, bool),
    HandshakeError,
>)
    ensures
        url_model_of(ws_url@) is None ==> (r matches Err(e) && e == HandshakeError::InvalidUrl),
        url_model_of(ws_url@) matches Some(m) ==> (match resolve_spec(m, key@) {
            Ok(t) => r matches Ok(v) && v.0@ == t.0 && v.1@ == t.1 && v.2@ == t.2 && v.3 == t.3,
            Err(e) => r matches Err(e2) && e2 == e,
        }),
{
    match parse_url(ws_url) {
        None => Err(HandshakeError::InvalidUrl),
        Some(p) => {
            proof {
                assert(parts_model(p) =~= url_model_of(ws_url@).unwrap());
            }
            build_handshake_request(p, key)
        },
    }
}

} // verus!
