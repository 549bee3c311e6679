//! Error and result types.

use vstd::prelude::*;
use reqwest::Error as HttpError;
use serde_json::Error as SerdeJsonError;
use tokio_tungstenite::tungstenite::Error as WsError;

verus! {

/// Why a JSON document could not be used.
#[derive(Debug)]
pub enum JsonError {
    /// The text is not JSON, as the JSON library reports it.
    Syntax(SerdeJsonError),
    /// The document is JSON but lacks the shape that the wire format needs.
    Shape(String),
}

/// Everything that can go wrong talking to a Lavalink node.
#[derive(Debug)]
pub enum Error {
    /// An HTTP request failed.
    Http(HttpError),
    /// The WebSocket failed.
    Ws(WsError),
    /// A JSON document could not be read or did not fit the wire format.
    Json(JsonError),
    /// A header value could not be sent.
    Header(String),
    /// The connection closed before the node sent its `ready` op.
    ClosedBeforeReady,
    /// The node is not connected yet (no version or no session id).
    NotConnected,
    /// The node answered with a status that is not a success.
    Api { status: u16, body: String },
    /// Anything else, described in words.
    Other(String),
}

/// The result type of this library.
pub type Result<T> = core::result::Result<T, Error>;

/// What an [`Error`] is, with its plain data.
pub enum ErrorKind {
    Http,
    Ws,
    JsonSyntax,
    JsonShape,
    Header(Seq<char>),
    ClosedBeforeReady,
    NotConnected,
    Api(u16, Seq<char>),
    Other(Seq<char>),
}

impl Error {
    pub open spec fn kind(&self) -> ErrorKind {
        match self {
            Error::Http(_) => ErrorKind::Http,
            Error::Ws(_) => ErrorKind::Ws,
            Error::Json(JsonError::Syntax(_)) => ErrorKind::JsonSyntax,
            Error::Json(JsonError::Shape(_)) => ErrorKind::JsonShape,
            Error::Header(m) => ErrorKind::Header(m@),
            Error::ClosedBeforeReady => ErrorKind::ClosedBeforeReady,
            Error::NotConnected => ErrorKind::NotConnected,
            Error::Api { status, body } => ErrorKind::Api(*status, body@),
            Error::Other(m) => ErrorKind::Other(m@),
        }
    }
}

/// The kind of a result's error, or `None` for a success.
pub open spec fn err_kind<T>(r: core::result::Result<T, Error>) -> Option<ErrorKind> {
    match r {
        Ok(_) => None,
        Err(e) => Some(e.kind()),
    }
}

/// A result with its success taken by its view and its error by its kind.
pub open spec fn res_view<T: View>(r: core::result::Result<T, Error>) -> core::result::Result<T::V, ErrorKind> {
    match r {
        Ok(t) => Ok(t@),
        Err(e) => Err(e.kind()),
    }
}

/// A result of an optional value, viewed as [`res_view`] does.
pub open spec fn res_opt_view<T: View>(r: core::result::Result<Option<T>, Error>) -> core::result::Result<Option<T::V>, ErrorKind> {
    match r {
        Ok(Some(t)) => Ok(Some(t@)),
        Ok(None) => Ok(None),
        Err(e) => Err(e.kind()),
    }
}

/// The error for a JSON document without the needed shape.
pub fn shape_error(what: &str) -> (e: Error)
    ensures
        e.kind() == ErrorKind::JsonShape,
{
    Error::Json(JsonError::Shape(crate::text::string_of(what)))
}

/// An error described in words.
pub fn other_error(msg: &str) -> (e: Error)
    ensures
        e.kind() == ErrorKind::Other(msg@),
{
    Error::Other(crate::text::string_of(msg))
}

/// The error type of the HTTP client, carried as it is.
#[verifier::external_type_specification]
#[verifier::external_body]
pub struct ExReqwestError(HttpError);

/// The error type of the WebSocket library, carried as it is.
#[verifier::external_type_specification]
#[verifier::external_body]
pub struct ExTungsteniteError(WsError);

} // verus!
