//! The WebSocket handshake for the Lavalink event stream (v3 and v4).

use vstd::prelude::*;
use vstd::string::StringSliceAdditionalSpecFns;
use vstd::utf8::encode_utf8;

use tokio_tungstenite::tungstenite::client::IntoClientRequest;
use tokio_tungstenite::tungstenite::http::HeaderValue;
use tokio_tungstenite::tungstenite::http::Request;
use tokio_tungstenite::tungstenite::Error as WsError;

use crate::error::{Error, ErrorKind, Result};
use crate::node::commands::{configure_resuming_spec, resume_key_for, NodeStateView};
use crate::node::config::{origin_spec, NodeConfig};
use crate::protocol::{ws_path_spec, LavalinkVersion};
use crate::text::string_of;

verus! {

/// The HTTP request type of the WebSocket library, carried as it is.
#[verifier::external_type_specification]
#[verifier::external_body]
#[verifier::reject_recursive_types(T)]
pub struct ExRequest<T>(Request<T>);

/// A header value of the HTTP library, carried as it is.
#[verifier::external_type_specification]
#[verifier::external_body]
pub struct ExHeaderValue(HeaderValue);

/// Whether the WebSocket library turns `url` into a client request (the
/// URL parses as a URI that it can connect to).
pub uninterp spec fn client_request_accepts(url: Seq<char>) -> bool;

/// The text of a request's URI (`req.uri().to_string()`).
pub uninterp spec fn request_uri(req: Request<()>) -> Seq<char>;

/// The headers of a request: each name (lower case, as the HTTP library
/// keeps names) with the bytes of its first value.
pub uninterp spec fn request_headers(req: Request<()>) -> Map<Seq<char>, Seq<u8>>;

/// The headers that the WebSocket library puts in every upgrade request:
/// `Host`, `Connection`, `Upgrade`, `Sec-WebSocket-Version` and
/// `Sec-WebSocket-Key`.
pub open spec fn upgrade_header_names() -> Set<Seq<char>> {
    set!["host"@, "connection"@, "upgrade"@, "sec-websocket-version"@, "sec-websocket-key"@]
}

/// A `ws://` or `wss://` URL that the HTTP library writes back unchanged:
/// no `?` and no `#` in it, and a `/` after the authority's start.
pub open spec fn uri_text_kept(url: Seq<char>) -> bool {
    let rest = if url.len() >= 5 && url.take(5) == "ws://"@ {
        url.skip(5)
    } else if url.len() >= 6 && url.take(6) == "wss://"@ {
        url.skip(6)
    } else {
        Seq::empty()
    };
    &&& !url.contains('?')
    &&& !url.contains('#')
    &&& rest.contains('/')
}

/// `url.into_client_request()`: a WebSocket upgrade request for the URL.
/// Whether it succeeds depends on `url` alone (it parses as a URI with a
/// host). The request holds exactly the five upgrade headers; its URI is
/// written back as `url` where the URI library keeps the text as it is
/// (see [`uri_text_kept`]). The values of the upgrade headers, among them
/// a random key, are left unsaid.
#[verifier::external_body]
fn client_request(url: &str) -> (r: core::result::Result<Request<()>, WsError>)
    ensures
        r is Ok <==> client_request_accepts(url@),
        r matches Ok(req) ==> request_headers(req).dom() == upgrade_header_names(),
        r matches Ok(req) ==> (uri_text_kept(url@) ==> request_uri(req) == url@),
{
    url.into_client_request()
}

/// The bytes that a header value may hold: visible ASCII, tab, and bytes
/// from 128 up (everything but controls and DEL).
pub open spec fn valid_header_value(bytes: Seq<u8>) -> bool {
    forall|i: int| 0 <= i < bytes.len() ==> ((#[trigger] bytes[i] >= 32 && bytes[i] != 127) || bytes[i] == 9)
}

/// The message of the HTTP library's `InvalidHeaderValue`.
pub open spec fn invalid_header_message() -> Seq<char> {
    "failed to parse header value"@
}

/// The bytes of a header value (`value.as_bytes()`).
pub uninterp spec fn header_value_bytes(value: HeaderValue) -> Seq<u8>;

/// `HeaderValue::from_str`: succeeds exactly when every byte of the value
/// is valid, and then holds the value's bytes as they are; the error is
/// carried as its message, which the library's `Display` writes as
/// "failed to parse header value".
#[verifier::external_body]
fn header_value(v: &str) -> (r: core::result::Result<HeaderValue, String>)
    ensures
        r is Ok <==> valid_header_value(v.spec_bytes()),
        r matches Ok(h) ==> header_value_bytes(h) == v.spec_bytes(),
        r matches Err(m) ==> m@ == invalid_header_message(),
{
    match HeaderValue::from_str(v) {
        Ok(h) => Ok(h),
        Err(e) => Err(e.to_string()),
    }
}

/// A header name that the HTTP library takes as a static name: ASCII
/// letters, digits and `-`, at most 64 of them.
pub open spec fn valid_header_name(n: Seq<char>) -> bool {
    0 < n.len() <= 64 && forall|i: int| 0 <= i < n.len() ==> {
        let c = #[trigger] n[i];
        ('a' <= c <= 'z') || ('A' <= c <= 'Z') || ('0' <= c <= '9') || c == '-'
    }
}

/// A header name as the HTTP library keeps it: ASCII letters in lower case.
pub open spec fn header_key(n: Seq<char>) -> Seq<char> {
    Seq::new(n.len(), |i: int| if 'A' <= n[i] <= 'Z' { ((n[i] as u32) + 32) as char } else { n[i] })
}

/// `req.headers_mut().try_insert(name, value)`: sets the header, in place of
/// any value it had, and leaves the URI as it is; `false` when the header
/// map is full (the library's `MaxSizeReached`), which cannot happen while
/// it holds fewer than 1024 names (its limit is 32768).
#[verifier::external_body]
fn insert_header(req: &mut Request<()>, name: &'static str, value: HeaderValue) -> (r: bool)
    requires
        valid_header_name(name@),
    ensures
        request_headers(*old(req)).dom().finite() && request_headers(*old(req)).dom().len() < 1024 ==> r,
        r ==> request_headers(*final(req)) == request_headers(*old(req)).insert(header_key(name@), header_value_bytes(value)),
        r ==> request_uri(*final(req)) == request_uri(*old(req)),
{
    req.headers_mut().try_insert(name, value).is_ok()
}

/// The headers of the WebSocket handshake: the password, user id and client
/// name, then (v4) the session id to resume as `Session-Id` or (v3) the
/// resume key as `Resume-Key`, when there is one.
pub open spec fn ws_headers_spec(
    password: Seq<char>,
    user_id: Seq<char>,
    client_name: Seq<char>,
    version: LavalinkVersion,
    session_id: Option<Seq<char>>,
    resume_key: Option<Seq<char>>,
) -> Seq<(Seq<char>, Seq<char>)> {
    seq![("Authorization"@, password), ("User-Id"@, user_id), ("Client-Name"@, client_name)]
        + match version {
        LavalinkVersion::V4 => match session_id {
            Some(s) => seq![("Session-Id"@, s)],
            None => Seq::empty(),
        },
        LavalinkVersion::V3 => match resume_key {
            Some(k) => seq![("Resume-Key"@, k)],
            None => Seq::empty(),
        },
    }
}

/// The model of a header list.
pub open spec fn headers_model(h: Seq<(&'static str, String)>) -> Seq<(Seq<char>, Seq<char>)> {
    Seq::new(h.len(), |i: int| (h[i].0@, h[i].1@))
}

/// The headers of the WebSocket handshake for a version, with the session id
/// (v4) or resume key (v3) to resume with.
pub fn ws_headers(config: &NodeConfig, version: LavalinkVersion, session_id: Option<&str>, resume_key: Option<&str>) -> (r: Vec<(&'static str, String)>)
    ensures
        headers_model(r@) == ws_headers_spec(config.password@, config.user_id@, config.client_name@, version, opt_str_view(session_id), opt_str_view(resume_key)),
        forall|i: int| 0 <= i < r@.len() ==> valid_header_name((#[trigger] r@[i]).0@),
{
    proof {
        reveal_strlit("Authorization");
        reveal_strlit("User-Id");
        reveal_strlit("Client-Name");
        reveal_strlit("Session-Id");
        reveal_strlit("Resume-Key");
    }
    let mut h: Vec<(&'static str, String)> = vec![
        ("Authorization", config.password.clone()),
        ("User-Id", config.user_id.clone()),
        ("Client-Name", config.client_name.clone()),
    ];
    match version {
        LavalinkVersion::V4 => match session_id {
            Some(s) => h.push(("Session-Id", string_of(s))),
            None => {},
        },
        LavalinkVersion::V3 => match resume_key {
            Some(k) => h.push(("Resume-Key", string_of(k))),
            None => {},
        },
    }
    assert(headers_model(h@) =~= ws_headers_spec(config.password@, config.user_id@, config.client_name@, version, opt_str_view(session_id), opt_str_view(resume_key)));
    h
}

/// The view of an optional string slice.
pub open spec fn opt_str_view(o: Option<&str>) -> Option<Seq<char>> {
    match o {
        Some(s) => Some(s@),
        None => None,
    }
}

/// The headers of the handshake for a configuration.
pub open spec fn handshake_headers(config: &NodeConfig, version: LavalinkVersion, session_id: Option<&str>, resume_key: Option<&str>) -> Seq<(Seq<char>, Seq<char>)> {
    ws_headers_spec(config.password@, config.user_id@, config.client_name@, version, opt_str_view(session_id), opt_str_view(resume_key))
}

/// The URL of the handshake for a configuration.
pub open spec fn handshake_url(config: &NodeConfig, version: LavalinkVersion) -> Seq<char> {
    origin_spec(config.secure, true, config.host@, config.port) + ws_path_spec(version)
}

/// The names of the first `n` handshake headers, as the HTTP library keeps
/// them.
pub open spec fn handshake_keys(hs: Seq<(Seq<char>, Seq<char>)>, n: int) -> Set<Seq<char>> {
    Set::new(|k: Seq<char>| exists|j: int| 0 <= j < n && k == header_key(#[trigger] hs[j].0))
}

/// The handshake headers are at most four, and no two of them share a name
/// (their names differ in length).
pub proof fn lemma_handshake_keys_distinct(
    password: Seq<char>,
    user_id: Seq<char>,
    client_name: Seq<char>,
    version: LavalinkVersion,
    session_id: Option<Seq<char>>,
    resume_key: Option<Seq<char>>,
)
    ensures
        ({
            let hs = ws_headers_spec(password, user_id, client_name, version, session_id, resume_key);
            &&& 3 <= hs.len() <= 4
            &&& forall|j: int, k: int| 0 <= j < hs.len() && 0 <= k < hs.len() && j != k
                ==> header_key(#[trigger] hs[j].0) != header_key(#[trigger] hs[k].0)
        }),
{
    reveal_strlit("Authorization");
    reveal_strlit("User-Id");
    reveal_strlit("Client-Name");
    reveal_strlit("Session-Id");
    reveal_strlit("Resume-Key");
    let hs = ws_headers_spec(password, user_id, client_name, version, session_id, resume_key);
    assert(hs[0].0.len() == 13);
    assert(hs[1].0.len() == 7);
    assert(hs[2].0.len() == 11);
    assert(hs.len() == 4 ==> hs[3].0.len() == 10);
    assert forall|j: int, k: int| 0 <= j < hs.len() && 0 <= k < hs.len() && j != k
        implies header_key(#[trigger] hs[j].0) != header_key(#[trigger] hs[k].0) by {
        assert(header_key(hs[j].0).len() == hs[j].0.len());
        assert(header_key(hs[k].0).len() == hs[k].0.len());
    }
}

/// The five upgrade header names are a finite set of at most five.
proof fn lemma_upgrade_header_names()
    ensures
        upgrade_header_names().finite(),
        upgrade_header_names().len() <= 5,
{
    let s0 = Set::<Seq<char>>::empty();
    let s1 = s0.insert("host"@);
    let s2 = s1.insert("connection"@);
    let s3 = s2.insert("upgrade"@);
    let s4 = s3.insert("sec-websocket-version"@);
    let s5 = s4.insert("sec-websocket-key"@);
    assert(s5 == upgrade_header_names());
    assert(s1.len() <= 1);
    assert(s2.len() <= 2);
    assert(s3.len() <= 3);
    assert(s4.len() <= 4);
    assert(s5.len() <= 5);
}

/// Build the WebSocket upgrade request with Lavalink's required headers
/// for a version (see [`ws_headers`]). A URL that the WebSocket library
/// rejects is a `Ws` error; a header value that holds a byte no header may
/// hold is a `Header` error, which carries the library's message
/// (see [`invalid_header_message`]); otherwise the request is built. It
/// holds the library's upgrade headers and each handshake header with its
/// value's bytes, and no other header; its URI is the handshake URL where
/// the URI library writes that URL back as it is.
pub fn build_ws_request(config: &NodeConfig, version: LavalinkVersion, session_id: Option<&str>, resume_key: Option<&str>) -> (r: Result<Request<()>>)
    ensures
        !client_request_accepts(handshake_url(config, version)) ==> (r matches Err(e) && e.kind() == ErrorKind::Ws),
        r is Ok ==> client_request_accepts(handshake_url(config, version)),
        r is Ok ==> forall|i: int| 0 <= i < handshake_headers(config, version, session_id, resume_key).len()
            ==> valid_header_value(encode_utf8((#[trigger] handshake_headers(config, version, session_id, resume_key)[i]).1)),
        client_request_accepts(handshake_url(config, version))
            && (exists|i: int| 0 <= i < handshake_headers(config, version, session_id, resume_key).len()
            && !valid_header_value(encode_utf8((#[trigger] handshake_headers(config, version, session_id, resume_key)[i]).1)))
            ==> (r matches Err(e) && e.kind() is Header),
        client_request_accepts(handshake_url(config, version))
            && (forall|i: int| 0 <= i < handshake_headers(config, version, session_id, resume_key).len()
            ==> valid_header_value(encode_utf8((#[trigger] handshake_headers(config, version, session_id, resume_key)[i]).1)))
            ==> r is Ok,
        r matches Ok(req) ==> (uri_text_kept(handshake_url(config, version)) ==> request_uri(req) == handshake_url(config, version)),
        r matches Ok(req) ==> request_headers(req).dom() == upgrade_header_names()
            + handshake_keys(handshake_headers(config, version, session_id, resume_key), handshake_headers(config, version, session_id, resume_key).len() as int),
        r matches Ok(req) ==> forall|i: int| 0 <= i < handshake_headers(config, version, session_id, resume_key).len()
            ==> request_headers(req)[header_key((#[trigger] handshake_headers(config, version, session_id, resume_key)[i]).0)]
                == encode_utf8(handshake_headers(config, version, session_id, resume_key)[i].1),
{
    let url = config.ws_url(version);
    let mut req = match client_request(url.as_str()) {
        Ok(req) => req,
        Err(e) => return Err(Error::Ws(e)),
    };
    let headers = ws_headers(config, version, session_id, resume_key);
    let ghost hs = headers_model(headers@);
    let ghost hurl = handshake_url(config, version);
    assert(hs == handshake_headers(config, version, session_id, resume_key));
    proof {
        lemma_handshake_keys_distinct(config.password@, config.user_id@, config.client_name@, version, opt_str_view(session_id), opt_str_view(resume_key));
        lemma_upgrade_header_names();
        assert(handshake_keys(hs, 0) =~= Set::<Seq<char>>::empty());
        assert(request_headers(req).dom() =~= upgrade_header_names() + handshake_keys(hs, 0));
    }
    let mut i: usize = 0;
    while i < headers.len()
        invariant
            i <= headers.len(),
            hs == headers_model(headers@),
            hs == handshake_headers(config, version, session_id, resume_key),
            hs.len() <= 4,
            forall|j: int, k: int| 0 <= j < hs.len() && 0 <= k < hs.len() && j != k
                ==> header_key(#[trigger] hs[j].0) != header_key(#[trigger] hs[k].0),
            hurl == handshake_url(config, version),
            client_request_accepts(hurl),
            uri_text_kept(hurl) ==> request_uri(req) == hurl,
            request_headers(req).dom() == upgrade_header_names() + handshake_keys(hs, i as int),
            request_headers(req).dom().finite(),
            request_headers(req).dom().len() <= 5 + i,
            forall|k: int| 0 <= k < i ==> request_headers(req)[header_key(#[trigger] hs[k].0)] == encode_utf8(hs[k].1),
            forall|k: int| 0 <= k < headers@.len() ==> valid_header_name((#[trigger] headers@[k]).0@),
            forall|k: int| 0 <= k < i ==> valid_header_value(encode_utf8(#[trigger] hs[k].1)),
        decreases headers.len() - i,
    {
        let (name, value) = (headers[i].0, &headers[i].1);
        let ghost before = request_headers(req);
        match header_value(value.as_str()) {
            Ok(h) => {
                if !insert_header(&mut req, name, h) {
                    return Err(Error::Header(string_of("header map is full")));
                }
                proof {
                    let key = header_key(hs[i as int].0);
                    assert(name@ == hs[i as int].0);
                    assert(request_headers(req) == before.insert(key, encode_utf8(hs[i as int].1)));
                    assert(request_headers(req).dom() =~= upgrade_header_names() + handshake_keys(hs, i + 1)) by {
                        assert forall|k: Seq<char>| handshake_keys(hs, i + 1).contains(k)
                            <==> (handshake_keys(hs, i as int).contains(k) || k == key) by {
                            if handshake_keys(hs, i + 1).contains(k) {
                                let j = choose|j: int| 0 <= j < i + 1 && k == header_key(#[trigger] hs[j].0);
                                if j < i {
                                    assert(handshake_keys(hs, i as int).contains(k));
                                }
                            }
                            if handshake_keys(hs, i as int).contains(k) {
                                let j = choose|j: int| 0 <= j < i && k == header_key(#[trigger] hs[j].0);
                                assert(0 <= j < i + 1 && k == header_key(hs[j].0));
                            }
                            if k == key {
                                assert(0 <= i < i + 1 && k == header_key(hs[i as int].0));
                            }
                        }
                    }
                    assert forall|k: int| 0 <= k < i + 1 implies request_headers(req)[header_key(#[trigger] hs[k].0)] == encode_utf8(hs[k].1) by {
                        if k < i {
                            assert(header_key(hs[k].0) != key);
                        }
                    }
                }
            },
            Err(m) => {
                assert(!valid_header_value(encode_utf8(hs[i as int].1)));
                return Err(Error::Header(m));
            },
        }
        i = i + 1;
    }
    Ok(req)
}

/// Only the resume credential of the handshake's own version is sent: the
/// header names of a v4 handshake request hold `session-id` exactly when a
/// session id is given and never `resume-key`; those of a v3 one hold
/// `resume-key` exactly when a key is given and never `session-id`; both
/// hold `authorization`, `user-id` and `client-name`.
pub proof fn law_handshake_sends_the_version_credential(
    password: Seq<char>,
    user_id: Seq<char>,
    client_name: Seq<char>,
    version: LavalinkVersion,
    session_id: Option<Seq<char>>,
    resume_key: Option<Seq<char>>,
)
    ensures
        ({
            let hs = ws_headers_spec(password, user_id, client_name, version, session_id, resume_key);
            let names = upgrade_header_names() + handshake_keys(hs, hs.len() as int);
            &&& names.contains("authorization"@)
            &&& names.contains("user-id"@)
            &&& names.contains("client-name"@)
            &&& version == LavalinkVersion::V4 ==> (names.contains("session-id"@) <==> session_id is Some)
            &&& version == LavalinkVersion::V4 ==> !names.contains("resume-key"@)
            &&& version == LavalinkVersion::V3 ==> (names.contains("resume-key"@) <==> resume_key is Some)
            &&& version == LavalinkVersion::V3 ==> !names.contains("session-id"@)
        }),
{
    reveal_strlit("Authorization");
    reveal_strlit("User-Id");
    reveal_strlit("Client-Name");
    reveal_strlit("Session-Id");
    reveal_strlit("Resume-Key");
    reveal_strlit("authorization");
    reveal_strlit("user-id");
    reveal_strlit("client-name");
    reveal_strlit("session-id");
    reveal_strlit("resume-key");
    reveal_strlit("host");
    reveal_strlit("connection");
    reveal_strlit("upgrade");
    reveal_strlit("sec-websocket-version");
    reveal_strlit("sec-websocket-key");
    let hs = ws_headers_spec(password, user_id, client_name, version, session_id, resume_key);
    let names = upgrade_header_names() + handshake_keys(hs, hs.len() as int);
    assert(header_key("Authorization"@) =~= "authorization"@);
    assert(header_key("User-Id"@) =~= "user-id"@);
    assert(header_key("Client-Name"@) =~= "client-name"@);
    assert(header_key("Session-Id"@) =~= "session-id"@);
    assert(header_key("Resume-Key"@) =~= "resume-key"@);
    assert(names.contains(header_key(hs[0].0)));
    assert(names.contains(header_key(hs[1].0)));
    assert(names.contains(header_key(hs[2].0)));
    assert("session-id"@[0] != "resume-key"@[0]);
    assert("session-id"@[0] != "connection"@[0]);
    assert("resume-key"@[0] != "connection"@[0]);
    assert(!upgrade_header_names().contains("session-id"@));
    assert(!upgrade_header_names().contains("resume-key"@));
    if hs.len() == 4 {
        assert(names.contains(header_key(hs[3].0)));
    }
    assert forall|j: int| 0 <= j < hs.len() && j < 3 implies
        header_key(#[trigger] hs[j].0) != "session-id"@ && header_key(hs[j].0) != "resume-key"@ by {
        assert(header_key(hs[j].0).len() == hs[j].0.len());
    }
    if handshake_keys(hs, hs.len() as int).contains("session-id"@) {
        let j = choose|j: int| 0 <= j < hs.len() && "session-id"@ == header_key(#[trigger] hs[j].0);
        assert(j == 3);
    }
    if handshake_keys(hs, hs.len() as int).contains("resume-key"@) {
        let j = choose|j: int| 0 <= j < hs.len() && "resume-key"@ == header_key(#[trigger] hs[j].0);
        assert(j == 3);
    }
}

/// Each handshake header carries what its name says: `Authorization` the
/// password, `User-Id` the user id, `Client-Name` the client name,
/// `Session-Id` (v4 only) the session id to resume and `Resume-Key` (v3
/// only) the resume key; the first three are always there.
pub proof fn law_handshake_header_values(
    password: Seq<char>,
    user_id: Seq<char>,
    client_name: Seq<char>,
    version: LavalinkVersion,
    session_id: Option<Seq<char>>,
    resume_key: Option<Seq<char>>,
)
    ensures
        ({
            let hs = ws_headers_spec(password, user_id, client_name, version, session_id, resume_key);
            &&& hs.contains(("Authorization"@, password))
            &&& hs.contains(("User-Id"@, user_id))
            &&& hs.contains(("Client-Name"@, client_name))
            &&& forall|i: int| 0 <= i < hs.len() ==> {
                let (n, v) = #[trigger] hs[i];
                &&& n == "Authorization"@ ==> v == password
                &&& n == "User-Id"@ ==> v == user_id
                &&& n == "Client-Name"@ ==> v == client_name
                &&& n == "Session-Id"@ ==> version == LavalinkVersion::V4 && session_id == Some(v)
                &&& n == "Resume-Key"@ ==> version == LavalinkVersion::V3 && resume_key == Some(v)
            }
        }),
{
    reveal_strlit("Authorization");
    reveal_strlit("User-Id");
    reveal_strlit("Client-Name");
    reveal_strlit("Session-Id");
    reveal_strlit("Resume-Key");
    let hs = ws_headers_spec(password, user_id, client_name, version, session_id, resume_key);
    assert(hs[0] == ("Authorization"@, password));
    assert(hs[1] == ("User-Id"@, user_id));
    assert(hs[2] == ("Client-Name"@, client_name));
    assert("Session-Id"@[0] != "Resume-Key"@[0]);
    assert(hs.contains(("Authorization"@, password)));
    assert(hs.contains(("User-Id"@, user_id)));
    assert(hs.contains(("Client-Name"@, client_name)));
    assert forall|i: int| 0 <= i < hs.len() implies {
        let (n, v) = #[trigger] hs[i];
        &&& n == "Authorization"@ ==> v == password
        &&& n == "User-Id"@ ==> v == user_id
        &&& n == "Client-Name"@ ==> v == client_name
        &&& n == "Session-Id"@ ==> version == LavalinkVersion::V4 && session_id == Some(v)
        &&& n == "Resume-Key"@ ==> version == LavalinkVersion::V3 && resume_key == Some(v)
    } by {
        assert(hs[i].0.len() == 13 || hs[i].0.len() == 7 || hs[i].0.len() == 11 || hs[i].0.len() == 10);
        if i == 3 {
            match version {
                LavalinkVersion::V4 => assert(hs[3] == ("Session-Id"@, session_id->0)),
                LavalinkVersion::V3 => assert(hs[3] == ("Resume-Key"@, resume_key->0)),
            }
        }
    }
}

/// What a node keeps to resume reaches the next handshake: on v4 the
/// session id it holds is sent as `Session-Id`; on v3 enabling resuming
/// stores the key `wavecord-{user_id}`, which the next handshake sends as
/// `Resume-Key`.
pub proof fn law_resume_credentials_reach_the_handshake(
    st: NodeStateView,
    password: Seq<char>,
    user_id: Seq<char>,
    client_name: Seq<char>,
    timeout: u64,
)
    ensures
        st.session_id is Some ==> ws_headers_spec(password, user_id, client_name, LavalinkVersion::V4, st.session_id, st.resume_key)
            .contains(("Session-Id"@, st.session_id->0)),
        ({
            let after = configure_resuming_spec(st, LavalinkVersion::V3, user_id, timeout).0;
            &&& after.resume_key == Some(resume_key_for(user_id))
            &&& after.session_id == st.session_id
            &&& ws_headers_spec(password, user_id, client_name, LavalinkVersion::V3, after.session_id, after.resume_key)
                .contains(("Resume-Key"@, resume_key_for(user_id)))
        }),
{
    if let Some(s) = st.session_id {
        let h = ws_headers_spec(password, user_id, client_name, LavalinkVersion::V4, st.session_id, st.resume_key);
        assert(h[3] == ("Session-Id"@, s));
    }
    let after = configure_resuming_spec(st, LavalinkVersion::V3, user_id, timeout).0;
    let h = ws_headers_spec(password, user_id, client_name, LavalinkVersion::V3, after.session_id, after.resume_key);
    assert(h[3] == ("Resume-Key"@, resume_key_for(user_id)));
}

} // verus!
