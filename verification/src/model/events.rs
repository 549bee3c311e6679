//! Server message and event models.

use vstd::prelude::*;

use crate::codec::{entry, opt_view, read_req_bool, read_req_int, read_req_str, req_bool, req_int, req_str};
use crate::json::{entries_model, field, json_number, object, Json, JsonValue};
use crate::model::load::{exception_from_json, exception_json, Exception, ExceptionView};
use crate::model::player::{player_state_from_json, player_state_json, PlayerState};
use crate::model::stats::{stats_entries, stats_from_json, Stats, StatsView};
use crate::model::track::{track_info_from_json, track_info_json, TrackInfo, TrackInfoView};
use crate::text::str_eq;

verus! {

/// A message pushed by the node over the WebSocket, the same for v3 and v4.
#[derive(Debug)]
pub enum ServerMessage {
    /// First message after connecting; carries the session id.
    Ready(Ready),
    /// Periodic per-guild player state.
    PlayerUpdate(PlayerUpdate),
    /// Periodic node stats.
    Stats(Stats),
    /// A player lifecycle event.
    Event(Event),
}

#[derive(Debug)]
pub struct Ready {
    pub resumed: bool,
    pub session_id: String,
}

#[derive(Debug)]
pub struct PlayerUpdate {
    pub guild_id: String,
    pub state: PlayerState,
}

/// The track carried by an event. On v4 the node sends a full object (so
/// `info` is present); on v3 it sends only the base64 string (so `info` is
/// `None`). Both are read into this one shape.
#[derive(Debug)]
pub struct EventTrack {
    pub encoded: String,
    pub info: Option<TrackInfo>,
}

/// The `event` op, told apart by its `type` member.
#[allow(inconsistent_fields)]
#[derive(Debug)]
pub enum Event {
    TrackStartEvent { guild_id: String, track: EventTrack },
    TrackEndEvent { guild_id: String, track: EventTrack, reason: TrackEndReason },
    TrackExceptionEvent { guild_id: String, track: EventTrack, exception: Exception },
    TrackStuckEvent { guild_id: String, track: EventTrack, threshold_ms: u64 },
    WebSocketClosedEvent { guild_id: String, code: i32, reason: String, by_remote: bool },
}

/// Why a track stopped. v4 sends camelCase (`finished`); v3 sends
/// SCREAMING_CASE (`FINISHED`); both read as the same value.
#[derive(Clone, Copy, PartialEq, Eq, Structural, Debug)]
pub enum TrackEndReason {
    Finished,
    LoadFailed,
    Stopped,
    Replaced,
    Cleanup,
}

pub struct ReadyView {
    pub resumed: bool,
    pub session_id: Seq<char>,
}

pub struct PlayerUpdateView {
    pub guild_id: Seq<char>,
    pub state: PlayerState,
}

pub struct EventTrackView {
    pub encoded: Seq<char>,
    pub info: Option<TrackInfoView>,
}

#[allow(inconsistent_fields)]
pub enum EventView {
    TrackStartEvent { guild_id: Seq<char>, track: EventTrackView },
    TrackEndEvent { guild_id: Seq<char>, track: EventTrackView, reason: TrackEndReason },
    TrackExceptionEvent { guild_id: Seq<char>, track: EventTrackView, exception: ExceptionView },
    TrackStuckEvent { guild_id: Seq<char>, track: EventTrackView, threshold_ms: u64 },
    WebSocketClosedEvent { guild_id: Seq<char>, code: i32, reason: Seq<char>, by_remote: bool },
}

pub enum ServerMessageView {
    Ready(ReadyView),
    PlayerUpdate(PlayerUpdateView),
    Stats(StatsView),
    Event(EventView),
}

impl View for Ready {
    type V = ReadyView;

    open spec fn view(&self) -> ReadyView {
        ReadyView { resumed: self.resumed, session_id: self.session_id@ }
    }
}

impl View for PlayerUpdate {
    type V = PlayerUpdateView;

    open spec fn view(&self) -> PlayerUpdateView {
        PlayerUpdateView { guild_id: self.guild_id@, state: self.state }
    }
}

impl View for EventTrack {
    type V = EventTrackView;

    open spec fn view(&self) -> EventTrackView {
        EventTrackView { encoded: self.encoded@, info: opt_view(self.info) }
    }
}

impl View for Event {
    type V = EventView;

    open spec fn view(&self) -> EventView {
        match self {
            Event::TrackStartEvent { guild_id, track } => EventView::TrackStartEvent { guild_id: guild_id@, track: track@ },
            Event::TrackEndEvent { guild_id, track, reason } => EventView::TrackEndEvent { guild_id: guild_id@, track: track@, reason: *reason },
            Event::TrackExceptionEvent { guild_id, track, exception } =>
                EventView::TrackExceptionEvent { guild_id: guild_id@, track: track@, exception: exception@ },
            Event::TrackStuckEvent { guild_id, track, threshold_ms } =>
                EventView::TrackStuckEvent { guild_id: guild_id@, track: track@, threshold_ms: *threshold_ms },
            Event::WebSocketClosedEvent { guild_id, code, reason, by_remote } =>
                EventView::WebSocketClosedEvent { guild_id: guild_id@, code: *code, reason: reason@, by_remote: *by_remote },
        }
    }
}

impl View for ServerMessage {
    type V = ServerMessageView;

    open spec fn view(&self) -> ServerMessageView {
        match self {
            ServerMessage::Ready(r) => ServerMessageView::Ready(r@),
            ServerMessage::PlayerUpdate(p) => ServerMessageView::PlayerUpdate(p@),
            ServerMessage::Stats(s) => ServerMessageView::Stats(s@),
            ServerMessage::Event(e) => ServerMessageView::Event(e@),
        }
    }
}

/// The wire format of [`TrackEndReason`]: a camelCase or an uppercase name.
pub open spec fn track_end_reason_from_json(j: Json) -> Option<TrackEndReason> {
    match j {
        Json::Str(s) => if s == "finished"@ || s == "FINISHED"@ {
            Some(TrackEndReason::Finished)
        } else if s == "loadFailed"@ || s == "LOAD_FAILED"@ {
            Some(TrackEndReason::LoadFailed)
        } else if s == "stopped"@ || s == "STOPPED"@ {
            Some(TrackEndReason::Stopped)
        } else if s == "replaced"@ || s == "REPLACED"@ {
            Some(TrackEndReason::Replaced)
        } else if s == "cleanup"@ || s == "CLEANUP"@ {
            Some(TrackEndReason::Cleanup)
        } else {
            None
        },
        _ => None,
    }
}

/// The JSON form of a [`TrackEndReason`]: its camelCase name.
pub open spec fn track_end_reason_json(r: TrackEndReason) -> Json {
    match r {
        TrackEndReason::Finished => Json::Str("finished"@),
        TrackEndReason::LoadFailed => Json::Str("loadFailed"@),
        TrackEndReason::Stopped => Json::Str("stopped"@),
        TrackEndReason::Replaced => Json::Str("replaced"@),
        TrackEndReason::Cleanup => Json::Str("cleanup"@),
    }
}

pub open spec fn ready_from_json(j: Json) -> Option<ReadyView> {
    match (req_bool(j, "resumed"@), req_str(j, "sessionId"@)) {
        (Some(resumed), Some(session_id)) => Some(ReadyView { resumed, session_id }),
        _ => None,
    }
}

pub open spec fn player_update_from_json(j: Json) -> Option<PlayerUpdateView> {
    match (req_str(j, "guildId"@), field(j, "state"@)) {
        (Some(guild_id), Some(s)) => match player_state_from_json(s) {
            Some(state) => Some(PlayerUpdateView { guild_id, state }),
            None => None,
        },
        _ => None,
    }
}

/// The wire format of [`EventTrack`]: `info` may be absent or `null`.
pub open spec fn event_track_from_json(j: Json) -> Option<EventTrackView> {
    match (req_str(j, "encoded"@), field(j, "info"@)) {
        (Some(encoded), None) => Some(EventTrackView { encoded, info: None }),
        (Some(encoded), Some(Json::Null)) => Some(EventTrackView { encoded, info: None }),
        (Some(encoded), Some(i)) => match track_info_from_json(i) {
            Some(info) => Some(EventTrackView { encoded, info: Some(info) }),
            None => None,
        },
        _ => None,
    }
}

pub open spec fn event_track_json(t: EventTrackView) -> Json {
    Json::Object(seq![
        ("encoded"@, Json::Str(t.encoded)),
        ("info"@, match t.info { Some(i) => track_info_json(i), None => Json::Null }),
    ])
}

/// The `track` member of an event.
pub open spec fn event_track_field(j: Json) -> Option<EventTrackView> {
    match field(j, "track"@) {
        Some(t) => event_track_from_json(t),
        None => None,
    }
}

/// The wire format of [`Event`]: the variant's name under `type`, and the
/// variant's members beside it.
pub open spec fn event_from_json(j: Json) -> Option<EventView> {
    match (req_str(j, "type"@), req_str(j, "guildId"@)) {
        (Some(t), Some(guild_id)) => if t == "TrackStartEvent"@ {
            match event_track_field(j) {
                Some(track) => Some(EventView::TrackStartEvent { guild_id, track }),
                None => None,
            }
        } else if t == "TrackEndEvent"@ {
            match (event_track_field(j), field(j, "reason"@)) {
                (Some(track), Some(r)) => match track_end_reason_from_json(r) {
                    Some(reason) => Some(EventView::TrackEndEvent { guild_id, track, reason }),
                    None => None,
                },
                _ => None,
            }
        } else if t == "TrackExceptionEvent"@ {
            match (event_track_field(j), field(j, "exception"@)) {
                (Some(track), Some(x)) => match exception_from_json(x) {
                    Some(exception) => Some(EventView::TrackExceptionEvent { guild_id, track, exception }),
                    None => None,
                },
                _ => None,
            }
        } else if t == "TrackStuckEvent"@ {
            match (event_track_field(j), req_int(j, "thresholdMs"@, 0, u64::MAX as int)) {
                (Some(track), Some(th)) => Some(EventView::TrackStuckEvent { guild_id, track, threshold_ms: th as u64 }),
                _ => None,
            }
        } else if t == "WebSocketClosedEvent"@ {
            match (req_int(j, "code"@, i32::MIN as int, i32::MAX as int), req_str(j, "reason"@), req_bool(j, "byRemote"@)) {
                (Some(code), Some(reason), Some(by_remote)) =>
                    Some(EventView::WebSocketClosedEvent { guild_id, code: code as i32, reason, by_remote }),
                _ => None,
            }
        } else {
            None
        },
        _ => None,
    }
}

/// The members of the JSON form of an [`Event`], its `type` first.
pub open spec fn event_entries(e: EventView) -> Seq<(Seq<char>, Json)> {
    match e {
        EventView::TrackStartEvent { guild_id, track } => seq![
            ("type"@, Json::Str("TrackStartEvent"@)),
            ("guildId"@, Json::Str(guild_id)),
            ("track"@, event_track_json(track)),
        ],
        EventView::TrackEndEvent { guild_id, track, reason } => seq![
            ("type"@, Json::Str("TrackEndEvent"@)),
            ("guildId"@, Json::Str(guild_id)),
            ("track"@, event_track_json(track)),
            ("reason"@, track_end_reason_json(reason)),
        ],
        EventView::TrackExceptionEvent { guild_id, track, exception } => seq![
            ("type"@, Json::Str("TrackExceptionEvent"@)),
            ("guildId"@, Json::Str(guild_id)),
            ("track"@, event_track_json(track)),
            ("exception"@, exception_json(exception)),
        ],
        EventView::TrackStuckEvent { guild_id, track, threshold_ms } => seq![
            ("type"@, Json::Str("TrackStuckEvent"@)),
            ("guildId"@, Json::Str(guild_id)),
            ("track"@, event_track_json(track)),
            ("thresholdMs"@, json_number(threshold_ms as int)),
        ],
        EventView::WebSocketClosedEvent { guild_id, code, reason, by_remote } => seq![
            ("type"@, Json::Str("WebSocketClosedEvent"@)),
            ("guildId"@, Json::Str(guild_id)),
            ("code"@, json_number(code as int)),
            ("reason"@, Json::Str(reason)),
            ("byRemote"@, Json::Bool(by_remote)),
        ],
    }
}

/// The wire format of [`ServerMessage`]: the variant's name under `op`, and
/// the variant's members beside it.
pub open spec fn server_message_from_json(j: Json) -> Option<ServerMessageView> {
    match req_str(j, "op"@) {
        Some(op) => if op == "ready"@ {
            match ready_from_json(j) {
                Some(r) => Some(ServerMessageView::Ready(r)),
                None => None,
            }
        } else if op == "playerUpdate"@ {
            match player_update_from_json(j) {
                Some(p) => Some(ServerMessageView::PlayerUpdate(p)),
                None => None,
            }
        } else if op == "stats"@ {
            match stats_from_json(j) {
                Some(s) => Some(ServerMessageView::Stats(s)),
                None => None,
            }
        } else if op == "event"@ {
            match event_from_json(j) {
                Some(e) => Some(ServerMessageView::Event(e)),
                None => None,
            }
        } else {
            None
        },
        None => None,
    }
}

/// The JSON form of a [`ServerMessage`]: `op` first, then the members.
pub open spec fn server_message_json(m: ServerMessageView) -> Json {
    match m {
        ServerMessageView::Ready(r) => Json::Object(seq![
            ("op"@, Json::Str("ready"@)),
            ("resumed"@, Json::Bool(r.resumed)),
            ("sessionId"@, Json::Str(r.session_id)),
        ]),
        ServerMessageView::PlayerUpdate(p) => Json::Object(seq![
            ("op"@, Json::Str("playerUpdate"@)),
            ("guildId"@, Json::Str(p.guild_id)),
            ("state"@, player_state_json(p.state)),
        ]),
        ServerMessageView::Stats(s) => Json::Object(seq![("op"@, Json::Str("stats"@))] + stats_entries(s)),
        ServerMessageView::Event(e) => Json::Object(seq![("op"@, Json::Str("event"@))] + event_entries(e)),
    }
}

impl Ready {
    pub fn from_json(v: &JsonValue) -> (r: Option<Ready>)
        ensures
            opt_view(r) == ready_from_json(v@),
    {
        let resumed = match read_req_bool(v, "resumed") { Some(x) => x, None => return None };
        let session_id = match read_req_str(v, "sessionId") { Some(x) => x, None => return None };
        Some(Ready { resumed, session_id })
    }
}

impl TrackEndReason {
    pub fn from_json(v: &JsonValue) -> (r: Option<TrackEndReason>)
        ensures
            r == track_end_reason_from_json(v@),
    {
        match v.as_str() {
            Some(s) => {
                let s = s.as_str();
                if str_eq(s, "finished") || str_eq(s, "FINISHED") {
                    Some(TrackEndReason::Finished)
                } else if str_eq(s, "loadFailed") || str_eq(s, "LOAD_FAILED") {
                    Some(TrackEndReason::LoadFailed)
                } else if str_eq(s, "stopped") || str_eq(s, "STOPPED") {
                    Some(TrackEndReason::Stopped)
                } else if str_eq(s, "replaced") || str_eq(s, "REPLACED") {
                    Some(TrackEndReason::Replaced)
                } else if str_eq(s, "cleanup") || str_eq(s, "CLEANUP") {
                    Some(TrackEndReason::Cleanup)
                } else {
                    None
                }
            },
            None => None,
        }
    }

    pub fn to_json(&self) -> (r: JsonValue)
        ensures
            r@ == track_end_reason_json(*self),
    {
        match self {
            TrackEndReason::Finished => JsonValue::from_str("finished"),
            TrackEndReason::LoadFailed => JsonValue::from_str("loadFailed"),
            TrackEndReason::Stopped => JsonValue::from_str("stopped"),
            TrackEndReason::Replaced => JsonValue::from_str("replaced"),
            TrackEndReason::Cleanup => JsonValue::from_str("cleanup"),
        }
    }
}

impl EventTrack {
    /// An event track that carries only the encoded string.
    pub fn from_encoded(encoded: String) -> (r: EventTrack)
        ensures
            r@ == (EventTrackView { encoded: encoded@, info: None }),
    {
        EventTrack { encoded, info: None }
    }

    pub fn from_json(v: &JsonValue) -> (r: Option<EventTrack>)
        ensures
            opt_view(r) == event_track_from_json(v@),
    {
        let encoded = match read_req_str(v, "encoded") { Some(x) => x, None => return None };
        match v.get("info") {
            None => Some(EventTrack { encoded, info: None }),
            Some(i) => if i.is_null() {
                Some(EventTrack { encoded, info: None })
            } else {
                match TrackInfo::from_json(i) {
                    Some(info) => Some(EventTrack { encoded, info: Some(info) }),
                    None => None,
                }
            },
        }
    }

    pub fn to_json(&self) -> (r: JsonValue)
        ensures
            r@ == event_track_json(self@),
    {
        let info = match &self.info {
            Some(i) => i.to_json(),
            None => JsonValue::Null,
        };
        let entries = vec![entry("encoded", JsonValue::Str(self.encoded.clone())), entry("info", info)];
        let r = object(entries);
        assert(entries_model(entries@) =~= match event_track_json(self@) { Json::Object(e) => e, _ => Seq::empty() });
        r
    }
}

fn read_event_track(v: &JsonValue) -> (r: Option<EventTrack>)
    ensures
        opt_view(r) == event_track_field(v@),
{
    match v.get("track") {
        Some(t) => EventTrack::from_json(t),
        None => None,
    }
}

impl Event {
    /// Reads an [`Event`] from its JSON form.
    pub fn from_json(v: &JsonValue) -> (r: Option<Event>)
        ensures
            opt_view(r) == event_from_json(v@),
    {
        let t = match read_req_str(v, "type") { Some(x) => x, None => return None };
        let guild_id = match read_req_str(v, "guildId") { Some(x) => x, None => return None };
        let t = t.as_str();
        if str_eq(t, "TrackStartEvent") {
            match read_event_track(v) {
                Some(track) => Some(Event::TrackStartEvent { guild_id, track }),
                None => None,
            }
        } else if str_eq(t, "TrackEndEvent") {
            let track = match read_event_track(v) { Some(x) => x, None => return None };
            match v.get("reason") {
                Some(r) => match TrackEndReason::from_json(r) {
                    Some(reason) => Some(Event::TrackEndEvent { guild_id, track, reason }),
                    None => None,
                },
                None => None,
            }
        } else if str_eq(t, "TrackExceptionEvent") {
            let track = match read_event_track(v) { Some(x) => x, None => return None };
            match v.get("exception") {
                Some(x) => match Exception::from_json(x) {
                    Some(exception) => Some(Event::TrackExceptionEvent { guild_id, track, exception }),
                    None => None,
                },
                None => None,
            }
        } else if str_eq(t, "TrackStuckEvent") {
            let track = match read_event_track(v) { Some(x) => x, None => return None };
            match read_req_int(v, "thresholdMs", 0, u64::MAX as i128) {
                Some(th) => Some(Event::TrackStuckEvent { guild_id, track, threshold_ms: th as u64 }),
                None => None,
            }
        } else if str_eq(t, "WebSocketClosedEvent") {
            let code = match read_req_int(v, "code", i32::MIN as i128, i32::MAX as i128) { Some(x) => x as i32, None => return None };
            let reason = match read_req_str(v, "reason") { Some(x) => x, None => return None };
            let by_remote = match read_req_bool(v, "byRemote") { Some(x) => x, None => return None };
            Some(Event::WebSocketClosedEvent { guild_id, code, reason, by_remote })
        } else {
            None
        }
    }

    /// The members of the JSON form of this event, its `type` first.
    pub fn json_entries(&self) -> (r: Vec<(String, JsonValue)>)
        ensures
            entries_model(r@) == event_entries(self@),
    {
        let entries = match self {
            Event::TrackStartEvent { guild_id, track } => vec![
                entry("type", JsonValue::from_str("TrackStartEvent")),
                entry("guildId", JsonValue::Str(guild_id.clone())),
                entry("track", track.to_json()),
            ],
            Event::TrackEndEvent { guild_id, track, reason } => vec![
                entry("type", JsonValue::from_str("TrackEndEvent")),
                entry("guildId", JsonValue::Str(guild_id.clone())),
                entry("track", track.to_json()),
                entry("reason", reason.to_json()),
            ],
            Event::TrackExceptionEvent { guild_id, track, exception } => vec![
                entry("type", JsonValue::from_str("TrackExceptionEvent")),
                entry("guildId", JsonValue::Str(guild_id.clone())),
                entry("track", track.to_json()),
                entry("exception", exception.to_json()),
            ],
            Event::TrackStuckEvent { guild_id, track, threshold_ms } => vec![
                entry("type", JsonValue::from_str("TrackStuckEvent")),
                entry("guildId", JsonValue::Str(guild_id.clone())),
                entry("track", track.to_json()),
                entry("thresholdMs", JsonValue::from_u64(*threshold_ms)),
            ],
            Event::WebSocketClosedEvent { guild_id, code, reason, by_remote } => vec![
                entry("type", JsonValue::from_str("WebSocketClosedEvent")),
                entry("guildId", JsonValue::Str(guild_id.clone())),
                entry("code", JsonValue::from_i64(*code as i64)),
                entry("reason", JsonValue::Str(reason.clone())),
                entry("byRemote", JsonValue::Bool(*by_remote)),
            ],
        };
        assert(entries_model(entries@) =~= event_entries(self@));
        entries
    }
}

impl ServerMessage {
    /// Reads a [`ServerMessage`] from its JSON form.
    pub fn from_json(v: &JsonValue) -> (r: Option<ServerMessage>)
        ensures
            opt_view(r) == server_message_from_json(v@),
    {
        let op = match read_req_str(v, "op") { Some(x) => x, None => return None };
        let op = op.as_str();
        if str_eq(op, "ready") {
            match Ready::from_json(v) {
                Some(r) => Some(ServerMessage::Ready(r)),
                None => None,
            }
        } else if str_eq(op, "playerUpdate") {
            let guild_id = match read_req_str(v, "guildId") { Some(x) => x, None => return None };
            match v.get("state") {
                Some(s) => match PlayerState::from_json(s) {
                    Some(state) => Some(ServerMessage::PlayerUpdate(PlayerUpdate { guild_id, state })),
                    None => None,
                },
                None => None,
            }
        } else if str_eq(op, "stats") {
            match Stats::from_json(v) {
                Some(s) => Some(ServerMessage::Stats(s)),
                None => None,
            }
        } else if str_eq(op, "event") {
            match Event::from_json(v) {
                Some(e) => Some(ServerMessage::Event(e)),
                None => None,
            }
        } else {
            None
        }
    }

    /// Writes this message in its JSON form.
    pub fn to_json(&self) -> (r: JsonValue)
        ensures
            r@ == server_message_json(self@),
    {
        let entries = match self {
            ServerMessage::Ready(r) => vec![
                entry("op", JsonValue::from_str("ready")),
                entry("resumed", JsonValue::Bool(r.resumed)),
                entry("sessionId", JsonValue::Str(r.session_id.clone())),
            ],
            ServerMessage::PlayerUpdate(p) => vec![
                entry("op", JsonValue::from_str("playerUpdate")),
                entry("guildId", JsonValue::Str(p.guild_id.clone())),
                entry("state", p.state.to_json()),
            ],
            ServerMessage::Stats(s) => {
                let mut e = vec![entry("op", JsonValue::from_str("stats"))];
                let mut rest = s.json_entries();
                e.append(&mut rest);
                e
            },
            ServerMessage::Event(ev) => {
                let mut e = vec![entry("op", JsonValue::from_str("event"))];
                let mut rest = ev.json_entries();
                e.append(&mut rest);
                e
            },
        };
        let r = object(entries);
        assert(entries_model(entries@) =~= match server_message_json(self@) { Json::Object(e) => e, _ => Seq::empty() });
        r
    }
}

} // verus!
