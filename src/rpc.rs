//! Decisions of the proxy: how a request is routed, where it is forwarded, and how
//! WebSocket frames cross the bridge.

use vstd::prelude::*;

verus! {

/// What the gateway does with an inbound request.
#[derive(Clone, Copy, Debug, PartialEq, Eq, Structural)]
pub enum RequestAction {
    /// Respond 403 "Access Denied".
    Deny,
    /// Upgrade the client connection and bridge it to the backend.
    WebSocket,
    /// Respond 413: the body exceeds the limit.
    PayloadTooLarge,
    /// Forward the request to the backend.
    Forward,
}

/// The routing rule: the firewall gate first; then a WebSocket upgrade (a request
/// carrying both `Upgrade` and `Connection` headers) is bridged before any body
/// check; then a body over the limit is refused; anything else is forwarded.
pub open spec fn route(
    allowed: bool,
    upgrade_requested: bool,
    has_upgrade_header: bool,
    has_connection_header: bool,
    body_len: nat,
    max_body: nat,
) -> RequestAction {
    if !allowed {
        RequestAction::Deny
    } else if upgrade_requested && has_upgrade_header && has_connection_header {
        RequestAction::WebSocket
    } else if body_len > max_body {
        RequestAction::PayloadTooLarge
    } else {
        RequestAction::Forward
    }
}

/// Decides what to do with a request; see `route`.
pub fn route_request(
    allowed: bool,
    upgrade_requested: bool,
    has_upgrade_header: bool,
    has_connection_header: bool,
    body_len: usize,
    max_body: usize,
) -> (r: RequestAction)
    ensures
        r == route(
            allowed,
            upgrade_requested,
            has_upgrade_header,
            has_connection_header,
            body_len as nat,
            max_body as nat,
        ),
{
    if !allowed {
        RequestAction::Deny
    } else if upgrade_requested && has_upgrade_header && has_connection_header {
        RequestAction::WebSocket
    } else if body_len > max_body {
        RequestAction::PayloadTooLarge
    } else {
        RequestAction::Forward
    }
}

/// `s` without its trailing `/` characters.
pub open spec fn trim_trailing_slashes(s: Seq<char>) -> Seq<char>
    decreases s.len(),
{
    if s.len() > 0 && s.last() == '/' {
        trim_trailing_slashes(s.drop_last())
    } else {
        s
    }
}

/// The upstream target of a request: the backend URL without trailing slashes,
/// followed by the request's path and query, or `/` when it has none.
pub open spec fn upstream_target(base: Seq<char>, path_and_query: Option<Seq<char>>) -> Seq<char> {
    trim_trailing_slashes(base) + match path_and_query {
        Some(pq) => pq,
        None => "/"@,
    }
}

/// Forms the upstream target; see `upstream_target`.
pub fn upstream_uri(proxy_url: &str, path_and_query: Option<&str>) -> (r: String)
    ensures
        r@ == upstream_target(
            proxy_url@,
            match path_and_query {
                Some(pq) => Some(pq@),
                None => None,
            },
        ),
{
    let mut end = proxy_url.unicode_len();
    assert(proxy_url@.subrange(0, end as int) =~= proxy_url@);
    while end > 0 && proxy_url.get_char(end - 1) == '/'
        invariant
            end <= proxy_url@.len(),
            trim_trailing_slashes(proxy_url@) == trim_trailing_slashes(
                proxy_url@.subrange(0, end as int),
            ),
        decreases end,
    {
        assert(proxy_url@.subrange(0, end as int).drop_last() =~= proxy_url@.subrange(
            0,
            end - 1,
        ));
        end = end - 1;
    }
    let base = String::from_str(proxy_url.substring_char(0, end));
    match path_and_query {
        Some(pq) => base.concat(pq),
        None => base.concat("/"),
    }
}

/// The scheme of the backend WebSocket endpoint: secure when the backend URL is.
pub open spec fn ws_scheme_of(scheme: Seq<char>) -> Seq<char> {
    if scheme == "https"@ || scheme == "wss"@ {
        "wss"@
    } else {
        "ws"@
    }
}

/// Picks `wss` for an `https` or `wss` backend, else `ws`.
pub fn backend_ws_scheme(scheme: &str) -> (r: &'static str)
    ensures
        r@ == ws_scheme_of(scheme@),
{
    if crate::urls::same_text(scheme, "https") || crate::urls::same_text(scheme, "wss") {
        "wss"
    } else {
        "ws"
    }
}

/// The backend WebSocket URL: scheme, host (`localhost` when the backend URL has
/// none) and the backend URL's path. The client's query is not forwarded.
pub fn backend_ws_url(scheme: &str, host: Option<&str>, path: &str) -> (r: String)
    ensures
        r@ == ws_scheme_of(scheme@) + "://"@ + match host {
            Some(h) => h@,
            None => "localhost"@,
        } + path@,
{
    let s = String::from_str(backend_ws_scheme(scheme)).concat("://");
    let s = match host {
        Some(h) => s.concat(h),
        None => s.concat("localhost"),
    };
    s.concat(path)
}

/// The backend port: the one given, else 80.
pub fn backend_port(port: Option<u16>) -> (r: u16)
    ensures
        r == match port {
            Some(p) => p,
            None => 80u16,
        },
{
    match port {
        Some(p) => p,
        None => 80,
    }
}

/// Close code for an unexpected failure of the peer.
pub const CLOSE_CODE_ERROR: u16 = 1011;

/// Close code for a protocol failure.
pub const CLOSE_CODE_PROTOCOL: u16 = 1002;

/// The code and reason of a close frame.
#[derive(Clone, Debug, PartialEq, Eq)]
pub struct CloseInfo {
    pub code: u16,
    pub reason: String,
}

/// A WebSocket message as the bridge sees it.
#[derive(Clone, Debug, PartialEq, Eq)]
pub enum WsFrame {
    Text(String),
    Binary(Vec<u8>),
    Ping(Vec<u8>),
    Pong(Vec<u8>),
    Close(Option<CloseInfo>),
    /// A raw or continuation frame below the message level.
    Raw,
}

impl WsFrame {
    /// A payload-carrying frame: text or binary.
    pub open spec fn is_data(self) -> bool {
        self is Text || self is Binary
    }
}

/// What one read from a socket gave.
#[derive(Clone, Debug, PartialEq, Eq)]
pub enum Incoming {
    Frame(WsFrame),
    Failed,
}

/// What the bridge does with one read.
#[derive(Clone, Debug, PartialEq, Eq)]
pub enum Relay {
    /// Send the frame to the other side and keep going.
    Forward(WsFrame),
    /// Send the frame to the other side and end the bridge.
    CloseAndStop(WsFrame),
    /// Send nothing and keep going.
    Ignore,
}

/// Client to backend: messages pass unchanged; a close or a failed read is answered
/// by a close without payload toward the backend, and the bridge ends.
pub open spec fn client_relay(m: Incoming) -> Relay {
    match m {
        Incoming::Frame(WsFrame::Close(_)) => Relay::CloseAndStop(WsFrame::Close(None)),
        Incoming::Frame(WsFrame::Raw) => Relay::Ignore,
        Incoming::Frame(f) => Relay::Forward(f),
        Incoming::Failed => Relay::CloseAndStop(WsFrame::Close(None)),
    }
}

/// Backend to client: messages pass unchanged; a close is passed on with its code and
/// reason and the bridge ends; raw frames are dropped; a failed read closes the
/// client with code 1011 and reason "Backend error".
pub open spec fn backend_relays(m: Incoming, r: Relay) -> bool {
    match m {
        Incoming::Frame(WsFrame::Close(c)) => r == Relay::CloseAndStop(WsFrame::Close(c)),
        Incoming::Frame(WsFrame::Raw) => r == Relay::Ignore,
        Incoming::Frame(f) => r == Relay::Forward(f),
        Incoming::Failed => r matches Relay::CloseAndStop(WsFrame::Close(Some(c))) && c.code
            == CLOSE_CODE_ERROR && c.reason@ == "Backend error"@,
    }
}

/// Handles one read from the client; see `client_relay`.
pub fn forward_from_client(m: Incoming) -> (r: Relay)
    ensures
        r == client_relay(m),
{
    match m {
        Incoming::Frame(WsFrame::Close(_)) => Relay::CloseAndStop(WsFrame::Close(None)),
        Incoming::Frame(WsFrame::Raw) => Relay::Ignore,
        Incoming::Frame(f) => Relay::Forward(f),
        Incoming::Failed => Relay::CloseAndStop(WsFrame::Close(None)),
    }
}

/// Handles one read from the backend; see `backend_relays`.
pub fn forward_from_backend(m: Incoming) -> (r: Relay)
    ensures
        backend_relays(m, r),
{
    match m {
        Incoming::Frame(WsFrame::Close(c)) => Relay::CloseAndStop(WsFrame::Close(c)),
        Incoming::Frame(WsFrame::Raw) => Relay::Ignore,
        Incoming::Frame(f) => Relay::Forward(f),
        Incoming::Failed => Relay::CloseAndStop(
            WsFrame::Close(
                Some(CloseInfo { code: CLOSE_CODE_ERROR, reason: String::from_str("Backend error") }),
            ),
        ),
    }
}

/// The close frame sent to the client when the backend cannot be reached: code
/// 1002, reason "Backend connection failed" when the connection itself failed,
/// "Backend handshake failed" when the WebSocket handshake did.
pub fn backend_unreachable(connection_failed: bool) -> (r: WsFrame)
    ensures
        r matches WsFrame::Close(Some(c)) && c.code == CLOSE_CODE_PROTOCOL && c.reason@ == (
        if connection_failed {
            "Backend connection failed"@
        } else {
            "Backend handshake failed"@
        }),
{
    let reason = if connection_failed {
        String::from_str("Backend connection failed")
    } else {
        String::from_str("Backend handshake failed")
    };
    WsFrame::Close(Some(CloseInfo { code: CLOSE_CODE_PROTOCOL, reason }))
}

/// A client's text and binary messages reach the backend unchanged and in order, and
/// the backend's reach the client the same way; a close from the backend keeps its
/// code and reason.
pub proof fn lemma_bridge_transparent(frames: Seq<WsFrame>, close: Option<CloseInfo>)
    requires
        forall|i: int| 0 <= i < frames.len() ==> (#[trigger] frames[i]).is_data(),
    ensures
        frames.map_values(|f: WsFrame| client_relay(Incoming::Frame(f))) == frames.map_values(
            |f: WsFrame| Relay::Forward(f),
        ),
        forall|i: int|
            0 <= i < frames.len() ==> backend_relays(
                Incoming::Frame(#[trigger] frames[i]),
                Relay::Forward(frames[i]),
            ),
        backend_relays(
            Incoming::Frame(WsFrame::Close(close)),
            Relay::CloseAndStop(WsFrame::Close(close)),
        ),
{
    assert(frames.map_values(|f: WsFrame| client_relay(Incoming::Frame(f))) =~= frames.map_values(
        |f: WsFrame| Relay::Forward(f),
    ));
}

} // verus!
