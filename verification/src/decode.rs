//! Reading a raw server message for either protocol version, and the
//! version names that callers use.

use vstd::prelude::*;
use vstd::string::StringExecFns;

use crate::codec::opt_view;
use crate::error::{res_opt_view, shape_error, Error, ErrorKind, JsonError};
use crate::json::{json_text_model, parse_json};
use crate::model::events::{server_message_from_json, ServerMessage, ServerMessageView};
use crate::protocol::v3::{normalize_message, normalize_message_spec};
use crate::protocol::LavalinkVersion;
use crate::text::{debug_str, str_debug, str_eq, string_of};

verus! {

/// Why a raw message could not be decoded.
#[derive(Debug)]
pub enum DecodeError {
    /// The version name is not one of `v3`, `3`, `v4`, `4`.
    Version(String),
    /// The message could not be read.
    Message(Error),
}

pub enum DecodeErrorKind {
    Version(Seq<char>),
    Message(ErrorKind),
}

impl DecodeError {
    pub open spec fn kind(&self) -> DecodeErrorKind {
        match self {
            DecodeError::Version(m) => DecodeErrorKind::Version(m@),
            DecodeError::Message(e) => DecodeErrorKind::Message(e.kind()),
        }
    }
}

/// The version that a name selects: `v3` or `3`, `v4` or `4`; any other
/// name is an error that quotes it.
pub open spec fn parse_version_spec(s: Option<Seq<char>>) -> core::result::Result<Option<LavalinkVersion>, Seq<char>> {
    match s {
        None => Ok(None),
        Some(n) => if n == "v3"@ || n == "3"@ {
            Ok(Some(LavalinkVersion::V3))
        } else if n == "v4"@ || n == "4"@ {
            Ok(Some(LavalinkVersion::V4))
        } else {
            Err("version must be 'v3' or 'v4', got "@ + str_debug(n))
        },
    }
}

/// The version that a name selects.
pub fn parse_version(s: Option<&str>) -> (r: core::result::Result<Option<LavalinkVersion>, String>)
    ensures
        match (r, parse_version_spec(match s { Some(x) => Some(x@), None => None })) {
            (Ok(v), Ok(w)) => v == w,
            (Err(m), Err(n)) => m@ == n,
            _ => false,
        },
{
    match s {
        None => Ok(None),
        Some(n) => {
            if str_eq(n, "v3") || str_eq(n, "3") {
                Ok(Some(LavalinkVersion::V3))
            } else if str_eq(n, "v4") || str_eq(n, "4") {
                Ok(Some(LavalinkVersion::V4))
            } else {
                let mut msg = string_of("version must be 'v3' or 'v4', got ");
                let d = debug_str(n);
                msg.append(d.as_str());
                Err(msg)
            }
        },
    }
}

/// The name of a version: `v3` or `v4`.
pub open spec fn version_name(v: LavalinkVersion) -> Seq<char> {
    match v {
        LavalinkVersion::V3 => "v3"@,
        LavalinkVersion::V4 => "v4"@,
    }
}

/// The name of a version: `v3` or `v4`.
pub fn version_str(v: LavalinkVersion) -> (r: &'static str)
    ensures
        r@ == version_name(v),
{
    match v {
        LavalinkVersion::V3 => "v3",
        LavalinkVersion::V4 => "v4",
    }
}

/// What decoding a raw message gives: a v4 message is read as it is (every
/// message is one of the four ops); a v3 message is normalized.
pub open spec fn decode_message_spec(text: Seq<char>, version: Seq<char>) -> core::result::Result<Option<ServerMessageView>, DecodeErrorKind> {
    match parse_version_spec(Some(version)) {
        Err(m) => Err(DecodeErrorKind::Version(m)),
        Ok(Some(LavalinkVersion::V4)) => match json_text_model(text) {
            None => Err(DecodeErrorKind::Message(ErrorKind::JsonSyntax)),
            Some(j) => match server_message_from_json(j) {
                Some(m) => Ok(Some(m)),
                None => Err(DecodeErrorKind::Message(ErrorKind::JsonShape)),
            },
        },
        Ok(Some(LavalinkVersion::V3)) => match normalize_message_spec(text) {
            Ok(m) => Ok(m),
            Err(k) => Err(DecodeErrorKind::Message(k)),
        },
        Ok(None) => Err(DecodeErrorKind::Version("version must be 'v3' or 'v4'"@)),
    }
}

/// Decode a raw Lavalink WebSocket message into the version-neutral
/// message that the event stream delivers. `version` is `"v3"` or `"v4"`.
pub fn decode_message(text: &str, version: &str) -> (r: core::result::Result<Option<ServerMessage>, DecodeError>)
    ensures
        match (r, decode_message_spec(text@, version@)) {
            (Ok(Some(m)), Ok(Some(w))) => m@ == w,
            (Ok(None), Ok(None)) => true,
            (Err(e), Err(k)) => e.kind() == k,
            _ => false,
        },
{
    match parse_version(Some(version)) {
        Err(m) => Err(DecodeError::Version(m)),
        Ok(Some(LavalinkVersion::V4)) => {
            let v = match parse_json(text) {
                Ok(v) => v,
                Err(e) => return Err(DecodeError::Message(Error::Json(JsonError::Syntax(e)))),
            };
            match ServerMessage::from_json(&v) {
                Some(m) => Ok(Some(m)),
                None => Err(DecodeError::Message(shape_error("invalid ServerMessage"))),
            }
        },
        Ok(Some(LavalinkVersion::V3)) => match normalize_message(text) {
            Ok(m) => Ok(m),
            Err(e) => Err(DecodeError::Message(e)),
        },
        Ok(None) => Err(DecodeError::Version(string_of("version must be 'v3' or 'v4'"))),
    }
}

} // verus!
