//! The frame reader of a node's WebSocket, as a step function: it decides,
//! frame by frame, what to forward as a normalized JSON string, which
//! session id to record, when the first `ready` arrived, what to answer and
//! when to stop.

use vstd::prelude::*;

use crate::codec::{opt_str, opt_view, read_opt_str};
use crate::json::{json_render, json_text_model, parse_json, render_json, Json, JsonValue};
use crate::model::events::{server_message_json, ServerMessage, ServerMessageView};
use crate::protocol::v3::{normalize_message, normalize_message_spec};
use crate::protocol::LavalinkVersion;
use crate::text::str_eq;

verus! {

/// A frame read from the WebSocket.
#[derive(Debug)]
pub enum Frame {
    Text(String),
    Ping(Vec<u8>),
    Close,
    /// Any other frame (binary, pong, ...).
    Other,
    /// The read failed.
    ReadError,
}

/// What to do with one frame.
#[derive(Debug)]
pub struct FrameOutcome {
    /// The normalized JSON string to hand on, if any.
    pub forward: Option<String>,
    /// The session id that a `ready` carried.
    pub session_id: Option<String>,
    /// This frame is the first `ready` of the connection.
    pub signal_ready: bool,
    /// The payload to answer with a pong.
    pub pong: Option<Vec<u8>>,
    /// The connection is over.
    pub stop: bool,
}

/// The reader of one connection.
#[derive(Clone, Copy, PartialEq, Eq, Structural, Debug)]
pub struct Reader {
    pub version: LavalinkVersion,
    /// No `ready` has been seen on this connection yet.
    pub ready_pending: bool,
}

pub enum FrameView {
    Text(Seq<char>),
    Ping(Seq<u8>),
    Close,
    Other,
    ReadError,
}

pub struct FrameOutcomeView {
    pub forward: Option<Seq<char>>,
    pub session_id: Option<Seq<char>>,
    pub signal_ready: bool,
    pub pong: Option<Seq<u8>>,
    pub stop: bool,
}

impl View for Frame {
    type V = FrameView;

    open spec fn view(&self) -> FrameView {
        match self {
            Frame::Text(t) => FrameView::Text(t@),
            Frame::Ping(p) => FrameView::Ping(p@),
            Frame::Close => FrameView::Close,
            Frame::Other => FrameView::Other,
            Frame::ReadError => FrameView::ReadError,
        }
    }
}

impl View for FrameOutcome {
    type V = FrameOutcomeView;

    open spec fn view(&self) -> FrameOutcomeView {
        FrameOutcomeView {
            forward: opt_view(self.forward),
            session_id: opt_view(self.session_id),
            signal_ready: self.signal_ready,
            pong: match self.pong {
                Some(p) => Some(p@),
                None => None,
            },
            stop: self.stop,
        }
    }
}

/// A string or `null`: `Some(None)` for `null`, `None` for any other value.
pub open spec fn str_or_null(j: Json) -> Option<Option<Seq<char>>> {
    match j {
        Json::Null => Some(None),
        Json::Str(s) => Some(Some(s)),
        _ => None,
    }
}

/// The two fields that a v4 frame is peeked for, `op` and `sessionId`, read
/// as a record of two optional strings is read: from an object (by name; a
/// missing member is `None`) or from an array of exactly two items (in that
/// order). `None` for any other text, or a field that is neither a string
/// nor `null`.
pub open spec fn peek_spec(text: Seq<char>) -> Option<(Option<Seq<char>>, Option<Seq<char>>)> {
    match json_text_model(text) {
        Some(j) => match j {
            Json::Object(_) => match (opt_str(j, "op"@), opt_str(j, "sessionId"@)) {
                (Some(op), Some(sid)) => Some((op, sid)),
                _ => None,
            },
            Json::Array(items) => if items.len() == 2 {
                match (str_or_null(items[0]), str_or_null(items[1])) {
                    (Some(op), Some(sid)) => Some((op, sid)),
                    _ => None,
                }
            } else {
                None
            },
            _ => None,
        },
        None => None,
    }
}

/// The `sessionId` that a v4 frame is peeked for.
pub open spec fn peek_session(text: Seq<char>) -> Option<Seq<char>> {
    match peek_spec(text) {
        Some((_, sid)) => sid,
        None => None,
    }
}

/// Whether a v4 frame is a `ready`.
pub open spec fn is_v4_ready(text: Seq<char>) -> bool {
    match peek_spec(text) {
        Some((Some(op), _)) => op == "ready"@,
        _ => false,
    }
}

/// An outcome that does nothing.
pub open spec fn quiet() -> FrameOutcomeView {
    FrameOutcomeView { forward: None, session_id: None, signal_ready: false, pong: None, stop: false }
}

/// One step of the reader: v4 text frames are forwarded verbatim (a
/// `ready` also yields its session id); v3 text frames are normalized and
/// forwarded as the JSON text of the version-neutral message (frames that
/// are not read, or not readable, are dropped); pings are answered; a close
/// or a read error ends the connection. Only the first `ready` is signalled.
pub open spec fn reader_step(r: Reader, f: FrameView) -> (Reader, FrameOutcomeView) {
    match f {
        FrameView::Text(t) => match r.version {
            LavalinkVersion::V4 => if is_v4_ready(t) {
                (
                    Reader { ready_pending: false, ..r },
                    FrameOutcomeView {
                        forward: Some(t),
                        session_id: peek_session(t),
                        signal_ready: r.ready_pending,
                        ..quiet()
                    },
                )
            } else {
                (r, FrameOutcomeView { forward: Some(t), ..quiet() })
            },
            LavalinkVersion::V3 => match normalize_message_spec(t) {
                Ok(Some(m)) => match m {
                    ServerMessageView::Ready(rd) => (
                        Reader { ready_pending: false, ..r },
                        FrameOutcomeView {
                            forward: Some(json_render(server_message_json(m))),
                            session_id: Some(rd.session_id),
                            signal_ready: r.ready_pending,
                            ..quiet()
                        },
                    ),
                    _ => (r, FrameOutcomeView { forward: Some(json_render(server_message_json(m))), ..quiet() }),
                },
                _ => (r, quiet()),
            },
        },
        FrameView::Ping(p) => (r, FrameOutcomeView { pong: Some(p), ..quiet() }),
        FrameView::Close => (r, FrameOutcomeView { stop: true, ..quiet() }),
        FrameView::Other => (r, quiet()),
        FrameView::ReadError => (r, FrameOutcomeView { stop: true, ..quiet() }),
    }
}

fn peek(text: &str) -> (r: Option<(Option<String>, Option<String>)>)
    ensures
        match r {
            Some((op, sid)) => peek_spec(text@) == Some((opt_view(op), opt_view(sid))),
            None => peek_spec(text@) is None,
        },
{
    let v = match parse_json(text) {
        Ok(v) => v,
        Err(_) => return None,
    };
    match &v {
        JsonValue::Object(_) => {
            let op = match read_opt_str(&v, "op") {
                Some(o) => o,
                None => return None,
            };
            let sid = match read_opt_str(&v, "sessionId") {
                Some(s) => s,
                None => return None,
            };
            Some((op, sid))
        },
        JsonValue::Array(items) => {
            let ghost m = match v@ { Json::Array(x) => x, _ => Seq::empty() };
            assert(m.len() == items@.len());
            if items.len() != 2 {
                return None;
            }
            assert(m[0] == items@[0]@ && m[1] == items@[1]@);
            let op = match &items[0] {
                JsonValue::Null => None,
                JsonValue::Str(x) => Some(x.clone()),
                _ => return None,
            };
            let sid = match &items[1] {
                JsonValue::Null => None,
                JsonValue::Str(x) => Some(x.clone()),
                _ => return None,
            };
            Some((op, sid))
        },
        _ => None,
    }
}

fn quiet_outcome() -> (r: FrameOutcome)
    ensures
        r@ == quiet(),
{
    FrameOutcome { forward: None, session_id: None, signal_ready: false, pong: None, stop: false }
}

impl Reader {
    /// The reader of a new connection.
    pub fn new(version: LavalinkVersion) -> (r: Reader)
        ensures
            r == (Reader { version, ready_pending: true }),
    {
        Reader { version, ready_pending: true }
    }

    /// Decides what to do with one frame.
    pub fn on_frame(&mut self, frame: Frame) -> (out: FrameOutcome)
        ensures
            (*final(self), out@) == reader_step(*old(self), frame@),
    {
        match frame {
            Frame::Text(t) => match self.version {
                LavalinkVersion::V4 => {
                    let p = peek(t.as_str());
                    let (ready, sid) = match p {
                        Some((Some(op), sid)) => (str_eq(op.as_str(), "ready"), sid),
                        _ => (false, None),
                    };
                    if ready {
                        let signal = self.ready_pending;
                        self.ready_pending = false;
                        FrameOutcome { forward: Some(t), session_id: sid, signal_ready: signal, pong: None, stop: false }
                    } else {
                        FrameOutcome { forward: Some(t), session_id: None, signal_ready: false, pong: None, stop: false }
                    }
                },
                LavalinkVersion::V3 => match normalize_message(t.as_str()) {
                    Ok(Some(m)) => {
                        let text = render_json(&m.to_json());
                        match m {
                            ServerMessage::Ready(rd) => {
                                let signal = self.ready_pending;
                                self.ready_pending = false;
                                FrameOutcome { forward: Some(text), session_id: Some(rd.session_id), signal_ready: signal, pong: None, stop: false }
                            },
                            _ => FrameOutcome { forward: Some(text), session_id: None, signal_ready: false, pong: None, stop: false },
                        }
                    },
                    _ => quiet_outcome(),
                },
            },
            Frame::Ping(p) => FrameOutcome { forward: None, session_id: None, signal_ready: false, pong: Some(p), stop: false },
            Frame::Close => FrameOutcome { forward: None, session_id: None, signal_ready: false, pong: None, stop: true },
            Frame::Other => quiet_outcome(),
            Frame::ReadError => FrameOutcome { forward: None, session_id: None, signal_ready: false, pong: None, stop: true },
        }
    }
}

/// A v4 text frame is handed on exactly as it came.
pub proof fn law_v4_frames_pass_through(r: Reader, t: Seq<char>)
    requires
        r.version == LavalinkVersion::V4,
    ensures
        reader_step(r, FrameView::Text(t)).1.forward == Some(t),
{
}

/// The first `ready` is signalled once: after a frame that signals it, no
/// later frame of the connection signals again.
pub proof fn law_ready_signalled_once(r: Reader, f: FrameView, g: FrameView)
    requires
        reader_step(r, f).1.signal_ready,
    ensures
        !reader_step(reader_step(r, f).0, g).1.signal_ready,
        !reader_step(r, f).0.ready_pending,
{
}

/// A frame signals `ready` only while one is still awaited.
pub proof fn law_signal_needs_pending(r: Reader, f: FrameView)
    requires
        !r.ready_pending,
    ensures
        !reader_step(r, f).1.signal_ready,
        !reader_step(r, f).0.ready_pending,
        reader_step(r, f).0.version == r.version,
{
}

} // verus!
