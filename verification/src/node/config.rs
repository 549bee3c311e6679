//! Connection parameters of a node and the URLs made from them.

use vstd::prelude::*;
use vstd::string::StringExecFns;

use crate::codec::opt_view;
use crate::protocol::{ws_path_spec, LavalinkVersion};
use crate::text::{decimal, push_decimal, string_of};

verus! {

/// The `Client-Name` a node sends unless told otherwise.
pub const DEFAULT_CLIENT_NAME: &'static str = "WaveCord/1.1.0";

/// Connection parameters for a node.
#[derive(Debug)]
pub struct NodeConfig {
    pub host: String,
    pub port: u16,
    pub password: String,
    pub secure: bool,
    pub user_id: String,
    pub client_name: String,
    pub session_id: Option<String>,
    /// Force a protocol version instead of asking `GET /version`.
    pub force_version: Option<LavalinkVersion>,
    /// Reconnect automatically after an unexpected disconnect (default true).
    pub reconnect: bool,
    /// Configure session resuming so players survive a reconnect (default true).
    pub resume: bool,
    /// How long the node keeps players alive while we are gone, in seconds.
    pub resume_timeout: u64,
}

impl Default for NodeConfig {
    fn default() -> (r: NodeConfig)
        ensures
            r.host@ == "127.0.0.1"@,
            r.port == 2333,
            r.password@ == Seq::<char>::empty(),
            !r.secure,
            r.user_id@ == Seq::<char>::empty(),
            r.client_name@ == DEFAULT_CLIENT_NAME@,
            r.session_id is None,
            r.force_version is None,
            r.reconnect,
            r.resume,
            r.resume_timeout == 60,
    {
        NodeConfig {
            host: string_of("127.0.0.1"),
            port: 2333,
            password: String::new(),
            secure: false,
            user_id: String::new(),
            client_name: string_of(DEFAULT_CLIENT_NAME),
            session_id: None,
            force_version: None,
            reconnect: true,
            resume: true,
            resume_timeout: 60,
        }
    }
}

/// The URL scheme: `wss`/`ws` for the WebSocket, `https`/`http` for REST.
pub open spec fn scheme_spec(secure: bool, ws: bool) -> Seq<char> {
    if ws {
        if secure { "wss"@ } else { "ws"@ }
    } else {
        if secure { "https"@ } else { "http"@ }
    }
}

/// `{scheme}://{host}:{port}`.
pub open spec fn origin_spec(secure: bool, ws: bool, host: Seq<char>, port: u16) -> Seq<char> {
    scheme_spec(secure, ws) + "://"@ + host + ":"@ + decimal(port as nat)
}

impl NodeConfig {
    /// The URL scheme for REST (`ws == false`) or the WebSocket.
    pub fn scheme(&self, ws: bool) -> (r: &'static str)
        ensures
            r@ == scheme_spec(self.secure, ws),
    {
        if ws {
            if self.secure { "wss" } else { "ws" }
        } else {
            if self.secure { "https" } else { "http" }
        }
    }

    fn origin(&self, ws: bool) -> (r: String)
        ensures
            r@ == origin_spec(self.secure, ws, self.host@, self.port),
    {
        let mut s = string_of(self.scheme(ws));
        s.append("://");
        s.append(self.host.as_str());
        s.append(":");
        push_decimal(&mut s, self.port as u64);
        s
    }

    /// The REST base URL, e.g. `http://127.0.0.1:2333`.
    pub fn http_base(&self) -> (r: String)
        ensures
            r@ == origin_spec(self.secure, false, self.host@, self.port),
    {
        self.origin(false)
    }

    /// The WebSocket URL for a version, e.g. `ws://127.0.0.1:2333/v4/websocket`.
    pub fn ws_url(&self, version: LavalinkVersion) -> (r: String)
        ensures
            r@ == origin_spec(self.secure, true, self.host@, self.port) + ws_path_spec(version),
    {
        let mut s = self.origin(true);
        s.append(version.ws_path());
        s
    }
}

} // verus!
