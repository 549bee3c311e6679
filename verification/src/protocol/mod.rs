//! Version-neutral protocol handling for Lavalink v3 and v4.

pub mod v3;
pub mod laws;

use vstd::prelude::*;
use vstd::string::StringExecFns;

use crate::error::{Error, ErrorKind, Result};
use crate::text::{before_dot, chars_of, debug_str, decimal, dot_bound, parse_u32, parse_u32_spec, push_decimal, str_debug, string_of, trim, trim_bounds};

verus! {

/// Which Lavalink protocol a node speaks.
#[derive(Clone, Copy, PartialEq, Eq, Structural, Debug)]
pub enum LavalinkVersion {
    V3,
    V4,
}

/// The major version that the body of `GET /version` names: the first
/// dot-separated part of the trimmed body, trimmed and read as a `u32`.
pub open spec fn major_version(body: Seq<char>) -> Option<nat> {
    parse_u32_spec(trim(before_dot(trim(body))))
}

/// What [`LavalinkVersion::from_version_string`] gives for a body.
pub open spec fn version_from_body(body: Seq<char>) -> core::result::Result<LavalinkVersion, ErrorKind> {
    match major_version(body) {
        None => Err(ErrorKind::Other("unrecognized version string: "@ + str_debug(body))),
        Some(n) => if n == 3 {
            Ok(LavalinkVersion::V3)
        } else if n == 4 {
            Ok(LavalinkVersion::V4)
        } else {
            Err(ErrorKind::Other("unsupported Lavalink major version "@ + decimal(n)))
        },
    }
}

/// The WebSocket path of a version.
pub open spec fn ws_path_spec(v: LavalinkVersion) -> Seq<char> {
    match v {
        LavalinkVersion::V3 => "/v3/websocket"@,
        LavalinkVersion::V4 => "/v4/websocket"@,
    }
}

impl LavalinkVersion {
    /// Parse the plaintext body of `GET /version` (e.g. `"3.7.13"`, `"4.2.2"`).
    pub fn from_version_string(body: &str) -> (r: Result<LavalinkVersion>)
        ensures
            match (r, version_from_body(body@)) {
                (Ok(v), Ok(w)) => v == w,
                (Err(e), Err(k)) => e.kind() == k,
                _ => false,
            },
    {
        let cs = chars_of(body);
        let (a, b) = trim_bounds(&cs, 0, cs.len());
        assert(cs@.subrange(0, cs@.len() as int) =~= body@);
        let d = dot_bound(&cs, a, b);
        let (c, e) = trim_bounds(&cs, a, d);
        match parse_u32(&cs, c, e) {
            None => {
                let mut msg = string_of("unrecognized version string: ");
                let dbg = debug_str(body);
                msg.append(dbg.as_str());
                Err(Error::Other(msg))
            },
            Some(3) => Ok(LavalinkVersion::V3),
            Some(4) => Ok(LavalinkVersion::V4),
            Some(n) => {
                let mut msg = string_of("unsupported Lavalink major version ");
                push_decimal(&mut msg, n as u64);
                Err(Error::Other(msg))
            },
        }
    }

    /// The WebSocket path for this version.
    pub fn ws_path(self) -> (r: &'static str)
        ensures
            r@ == ws_path_spec(self),
    {
        match self {
            LavalinkVersion::V3 => "/v3/websocket",
            LavalinkVersion::V4 => "/v4/websocket",
        }
    }
}

} // verus!
