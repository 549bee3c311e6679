//! Lavalink v3 wire specifics: client-to-server WebSocket ops, and the
//! reading of v3 server messages and loadtracks responses into the
//! version-neutral model.

use vstd::prelude::*;
use vstd::string::StringExecFns;

use crate::codec::{entry, opt_view};
use crate::error::{other_error, res_opt_view, res_view, shape_error, Error, ErrorKind, JsonError, Result};
use crate::json::{entries_model, field, json_int_in, json_number, json_text_model, object, parse_json, upsert, upsert_entry, Json, JsonValue};
use crate::model::events::{event_track_from_json, server_message_from_json, player_update_from_json, ready_from_json, track_end_reason_from_json, Event, EventTrack, EventTrackView, EventView, PlayerUpdate, PlayerUpdateView, Ready, ServerMessage, ServerMessageView, TrackEndReason};
use crate::model::load::{exception_from_json, Exception, LoadResult, LoadResultView, Playlist, PlaylistInfo, PlaylistInfoView, PlaylistView};
use crate::model::player::{player_state_from_json, PlayerState};
use crate::model::stats::{stats_from_json, Stats};
use crate::model::track::{track_info_from_json, tracks_view, Track, TrackInfo, TrackView};
use crate::text::{debug_str, str_debug, str_eq, string_of};

verus! {

// ---------------------------------------------------------------------
// Client-to-server ops
// ---------------------------------------------------------------------

/// The model of an op: an object with `op` first and then the members.
pub open spec fn op_json(op: Seq<char>, members: Seq<(Seq<char>, Json)>) -> Json {
    Json::Object(seq![("op"@, Json::Str(op))] + members)
}

/// `voiceUpdate`: hands Lavalink the Discord voice connection.
pub open spec fn voice_update_op_json(guild_id: Seq<char>, token: Seq<char>, endpoint: Seq<char>, session_id: Seq<char>) -> Json {
    op_json("voiceUpdate"@, seq![
        ("guildId"@, Json::Str(guild_id)),
        ("sessionId"@, Json::Str(session_id)),
        ("event"@, Json::Object(seq![
            ("token"@, Json::Str(token)),
            ("endpoint"@, Json::Str(endpoint)),
            ("guildId"@, Json::Str(guild_id)),
        ])),
    ])
}

/// One member when the value is present, none otherwise.
pub open spec fn opt_member(k: Seq<char>, o: Option<Json>) -> Seq<(Seq<char>, Json)> {
    match o {
        Some(v) => seq![(k, v)],
        None => Seq::empty(),
    }
}

/// `play`: starts an encoded track; the optional members are sent only when set.
pub open spec fn play_op_json(
    guild_id: Seq<char>,
    encoded: Seq<char>,
    start_ms: Option<i64>,
    end_ms: Option<i64>,
    volume: Option<i32>,
    paused: Option<bool>,
    no_replace: bool,
) -> Json {
    op_json("play"@, seq![
        ("guildId"@, Json::Str(guild_id)),
        ("track"@, Json::Str(encoded)),
        ("noReplace"@, Json::Bool(no_replace)),
    ]
        + opt_member("startTime"@, match start_ms { Some(v) => Some(json_number(v as int)), None => None })
        + opt_member("endTime"@, match end_ms { Some(v) => Some(json_number(v as int)), None => None })
        + opt_member("volume"@, match volume { Some(v) => Some(json_number(v as int)), None => None })
        + opt_member("pause"@, match paused { Some(v) => Some(Json::Bool(v)), None => None }))
}

/// The entries of `base` after setting each of `members` in turn.
pub open spec fn upsert_all(base: Seq<(Seq<char>, Json)>, members: Seq<(Seq<char>, Json)>) -> Seq<(Seq<char>, Json)>
    decreases members.len(),
{
    if members.len() == 0 {
        base
    } else {
        upsert(upsert_all(base, members.drop_last()), members.last().0, members.last().1)
    }
}

/// `filters`: in v3 the filter members sit at the top level of the op
/// (each one set in turn over `op` and `guildId`); a value that is not an
/// object adds nothing.
pub open spec fn filters_op_json(guild_id: Seq<char>, filters: Json) -> Json {
    let base = seq![("op"@, Json::Str("filters"@)), ("guildId"@, Json::Str(guild_id))];
    match filters {
        Json::Object(members) => Json::Object(upsert_all(base, members)),
        _ => Json::Object(base),
    }
}

fn op_with(op: &str, mut members: Vec<(String, JsonValue)>) -> (r: JsonValue)
    ensures
        r@ == op_json(op@, entries_model(members@)),
{
    let mut entries = vec![entry("op", JsonValue::from_str(op))];
    let ghost m = entries_model(members@);
    entries.append(&mut members);
    let r = object(entries);
    assert(entries_model(entries@) =~= seq![("op"@, Json::Str(op@))] + m);
    r
}

/// `voiceUpdate`: hands Lavalink the Discord voice connection.
pub fn voice_update_op(guild_id: &str, token: &str, endpoint: &str, session_id: &str) -> (r: JsonValue)
    ensures
        r@ == voice_update_op_json(guild_id@, token@, endpoint@, session_id@),
{
    let event = vec![
        entry("token", JsonValue::from_str(token)),
        entry("endpoint", JsonValue::from_str(endpoint)),
        entry("guildId", JsonValue::from_str(guild_id)),
    ];
    let ev = object(event);
    let members = vec![
        entry("guildId", JsonValue::from_str(guild_id)),
        entry("sessionId", JsonValue::from_str(session_id)),
        entry("event", ev),
    ];
    assert(entries_model(event@) =~= seq![
        ("token"@, Json::Str(token@)),
        ("endpoint"@, Json::Str(endpoint@)),
        ("guildId"@, Json::Str(guild_id@)),
    ]);
    assert(entries_model(members@) =~= seq![
        ("guildId"@, Json::Str(guild_id@)),
        ("sessionId"@, Json::Str(session_id@)),
        ("event"@, Json::Object(seq![
            ("token"@, Json::Str(token@)),
            ("endpoint"@, Json::Str(endpoint@)),
            ("guildId"@, Json::Str(guild_id@)),
        ])),
    ]);
    op_with("voiceUpdate", members)
}

fn push_member(entries: &mut Vec<(String, JsonValue)>, k: &str, v: Option<JsonValue>)
    ensures
        entries_model(final(entries)@) == entries_model(old(entries)@) + opt_member(k@, opt_view(v)),
{
    match v {
        Some(x) => {
            entries.push(entry(k, x));
            assert(entries_model(entries@) =~= entries_model(old(entries)@) + opt_member(k@, opt_view(v)));
        },
        None => {
            assert(entries_model(entries@) =~= entries_model(old(entries)@) + opt_member(k@, opt_view(v)));
        },
    }
}

/// `play`: starts an encoded track.
pub fn play_op(
    guild_id: &str,
    encoded: &str,
    start_ms: Option<i64>,
    end_ms: Option<i64>,
    volume: Option<i32>,
    paused: Option<bool>,
    no_replace: bool,
) -> (r: JsonValue)
    ensures
        r@ == play_op_json(guild_id@, encoded@, start_ms, end_ms, volume, paused, no_replace),
{
    let mut members = vec![
        entry("guildId", JsonValue::from_str(guild_id)),
        entry("track", JsonValue::from_str(encoded)),
        entry("noReplace", JsonValue::Bool(no_replace)),
    ];
    assert(entries_model(members@) =~= seq![
        ("guildId"@, Json::Str(guild_id@)),
        ("track"@, Json::Str(encoded@)),
        ("noReplace"@, Json::Bool(no_replace)),
    ]);
    let s = match start_ms { Some(v) => Some(JsonValue::from_i64(v)), None => None };
    push_member(&mut members, "startTime", s);
    let e = match end_ms { Some(v) => Some(JsonValue::from_i64(v)), None => None };
    push_member(&mut members, "endTime", e);
    let vo = match volume { Some(v) => Some(JsonValue::from_i64(v as i64)), None => None };
    push_member(&mut members, "volume", vo);
    let p = match paused { Some(v) => Some(JsonValue::Bool(v)), None => None };
    push_member(&mut members, "pause", p);
    op_with("play", members)
}

/// `stop`.
pub fn stop_op(guild_id: &str) -> (r: JsonValue)
    ensures
        r@ == op_json("stop"@, seq![("guildId"@, Json::Str(guild_id@))]),
{
    let members = vec![entry("guildId", JsonValue::from_str(guild_id))];
    assert(entries_model(members@) =~= seq![("guildId"@, Json::Str(guild_id@))]);
    op_with("stop", members)
}

/// `pause`.
pub fn pause_op(guild_id: &str, paused: bool) -> (r: JsonValue)
    ensures
        r@ == op_json("pause"@, seq![("guildId"@, Json::Str(guild_id@)), ("pause"@, Json::Bool(paused))]),
{
    let members = vec![entry("guildId", JsonValue::from_str(guild_id)), entry("pause", JsonValue::Bool(paused))];
    assert(entries_model(members@) =~= seq![("guildId"@, Json::Str(guild_id@)), ("pause"@, Json::Bool(paused))]);
    op_with("pause", members)
}

/// `seek`.
pub fn seek_op(guild_id: &str, position_ms: i64) -> (r: JsonValue)
    ensures
        r@ == op_json("seek"@, seq![("guildId"@, Json::Str(guild_id@)), ("position"@, json_number(position_ms as int))]),
{
    let members = vec![entry("guildId", JsonValue::from_str(guild_id)), entry("position", JsonValue::from_i64(position_ms))];
    assert(entries_model(members@) =~= seq![("guildId"@, Json::Str(guild_id@)), ("position"@, json_number(position_ms as int))]);
    op_with("seek", members)
}

/// `volume`.
pub fn volume_op(guild_id: &str, volume: i32) -> (r: JsonValue)
    ensures
        r@ == op_json("volume"@, seq![("guildId"@, Json::Str(guild_id@)), ("volume"@, json_number(volume as int))]),
{
    let members = vec![entry("guildId", JsonValue::from_str(guild_id)), entry("volume", JsonValue::from_i64(volume as i64))];
    assert(entries_model(members@) =~= seq![("guildId"@, Json::Str(guild_id@)), ("volume"@, json_number(volume as int))]);
    op_with("volume", members)
}

/// `destroy`.
pub fn destroy_op(guild_id: &str) -> (r: JsonValue)
    ensures
        r@ == op_json("destroy"@, seq![("guildId"@, Json::Str(guild_id@))]),
{
    let members = vec![entry("guildId", JsonValue::from_str(guild_id))];
    assert(entries_model(members@) =~= seq![("guildId"@, Json::Str(guild_id@))]);
    op_with("destroy", members)
}

/// `configureResuming`: keep this node's players alive for `timeout` seconds
/// after a disconnect; reconnect with the same `key` in the `Resume-Key` header.
pub fn configure_resuming_op(key: &str, timeout: u64) -> (r: JsonValue)
    ensures
        r@ == op_json("configureResuming"@, seq![("key"@, Json::Str(key@)), ("timeout"@, json_number(timeout as int))]),
{
    let members = vec![entry("key", JsonValue::from_str(key)), entry("timeout", JsonValue::from_u64(timeout))];
    assert(entries_model(members@) =~= seq![("key"@, Json::Str(key@)), ("timeout"@, json_number(timeout as int))]);
    op_with("configureResuming", members)
}

/// `filters`: in v3 the filter members sit at the top level of the op
/// (unlike v4, where they are nested under a `filters` key in the REST body).
pub fn filters_op(guild_id: &str, filters: &JsonValue) -> (r: JsonValue)
    ensures
        r@ == filters_op_json(guild_id@, filters@),
{
    let mut entries = vec![entry("op", JsonValue::from_str("filters")), entry("guildId", JsonValue::from_str(guild_id))];
    let ghost base = entries_model(entries@);
    assert(base =~= seq![("op"@, Json::Str("filters"@)), ("guildId"@, Json::Str(guild_id@))]);
    match filters {
        JsonValue::Object(o) => {
            let ghost members = match filters@ { Json::Object(m) => m, _ => Seq::empty() };
            let mut i: usize = 0;
            while i < o.len()
                invariant
                    i <= o.len(),
                    members.len() == o@.len(),
                    forall|k: int| 0 <= k < o@.len() ==> #[trigger] members[k] == (o@[k].0@, o@[k].1@),
                    entries_model(entries@) == upsert_all(base, members.take(i as int)),
                decreases o.len() - i,
            {
                upsert_entry(&mut entries, o[i].0.as_str(), &o[i].1);
                assert(members.take(i + 1).drop_last() =~= members.take(i as int));
                i = i + 1;
            }
            assert(members.take(i as int) =~= members);
            object(entries)
        },
        _ => object(entries),
    }
}

// ---------------------------------------------------------------------
// Reading v3 server messages
// ---------------------------------------------------------------------

/// A string member, or the error that names it as missing.
pub open spec fn str_field_spec(j: Json, k: Seq<char>) -> core::result::Result<Seq<char>, ErrorKind> {
    match field(j, k) {
        Some(Json::Str(s)) => Ok(s),
        _ => Err(ErrorKind::Other("missing string field "@ + str_debug(k))),
    }
}

/// The string of a member, when present and a string.
pub open spec fn str_member(j: Json, k: Seq<char>) -> Option<Seq<char>> {
    match field(j, k) {
        Some(Json::Str(s)) => Some(s),
        _ => None,
    }
}

/// The encoded track of a v3 object: `first` when present (a string or
/// nothing), else `second`.
pub open spec fn first_str_of(j: Json, first: Seq<char>, second: Seq<char>) -> Option<Seq<char>> {
    match field(j, first) {
        Some(Json::Str(s)) => Some(s),
        Some(_) => None,
        None => str_member(j, second),
    }
}

/// The member `k`, or `null` when absent.
pub open spec fn member_or_null(j: Json, k: Seq<char>) -> Json {
    match field(j, k) {
        Some(x) => x,
        None => Json::Null,
    }
}

/// An integer member within the `i64` range, else 0.
pub open spec fn i64_member_or_zero(j: Json, k: Seq<char>) -> int {
    match field(j, k) {
        Some(x) => match json_int_in(x, i64::MIN as int, i64::MAX as int) {
            Some(v) => v,
            None => 0,
        },
        None => 0,
    }
}

/// The v3 event body (`op: event`) read into an [`Event`]; `Ok(None)` for an
/// event type that is not read.
pub open spec fn normalize_event_spec(j: Json) -> core::result::Result<Option<EventView>, ErrorKind> {
    let kind = match str_member(j, "type"@) {
        Some(k) => k,
        None => Seq::empty(),
    };
    let missing_track = ErrorKind::Other("missing field "@ + str_debug("encodedTrack"@));
    let encoded = first_str_of(j, "encodedTrack"@, "track"@);
    match str_field_spec(j, "guildId"@) {
        Err(e) => Err(e),
        Ok(guild_id) => if kind == "TrackStartEvent"@ {
            match encoded {
                None => Err(missing_track),
                Some(enc) => Ok(Some(EventView::TrackStartEvent {
                    guild_id,
                    track: EventTrackView { encoded: enc, info: None },
                })),
            }
        } else if kind == "TrackEndEvent"@ {
            match encoded {
                None => Err(missing_track),
                Some(enc) => match track_end_reason_from_json(member_or_null(j, "reason"@)) {
                    None => Err(ErrorKind::JsonShape),
                    Some(reason) => Ok(Some(EventView::TrackEndEvent {
                        guild_id,
                        track: EventTrackView { encoded: enc, info: None },
                        reason,
                    })),
                },
            }
        } else if kind == "TrackExceptionEvent"@ {
            match encoded {
                None => Err(missing_track),
                Some(enc) => match exception_from_json(member_or_null(j, "exception"@)) {
                    None => Err(ErrorKind::JsonShape),
                    Some(exception) => Ok(Some(EventView::TrackExceptionEvent {
                        guild_id,
                        track: EventTrackView { encoded: enc, info: None },
                        exception,
                    })),
                },
            }
        } else if kind == "TrackStuckEvent"@ {
            match encoded {
                None => Err(missing_track),
                Some(enc) => Ok(Some(EventView::TrackStuckEvent {
                    guild_id,
                    track: EventTrackView { encoded: enc, info: None },
                    threshold_ms: match field(j, "thresholdMs"@) {
                        Some(x) => match json_int_in(x, 0, u64::MAX as int) {
                            Some(v) => v as u64,
                            None => 0,
                        },
                        None => 0,
                    },
                })),
            }
        } else if kind == "WebSocketClosedEvent"@ {
            Ok(Some(EventView::WebSocketClosedEvent {
                guild_id,
                code: i64_member_or_zero(j, "code"@) as i32,
                reason: match str_member(j, "reason"@) {
                    Some(r) => r,
                    None => Seq::empty(),
                },
                by_remote: match field(j, "byRemote"@) {
                    Some(Json::Bool(b)) => b,
                    _ => false,
                },
            }))
        } else {
            Ok(None)
        },
    }
}

/// A raw v3 WebSocket message read into the version-neutral
/// [`ServerMessage`]; `Ok(None)` for messages that are not read.
pub open spec fn normalize_message_spec(raw: Seq<char>) -> core::result::Result<Option<ServerMessageView>, ErrorKind> {
    match json_text_model(raw) {
        None => Err(ErrorKind::JsonSyntax),
        Some(j) => {
            let op = match str_member(j, "op"@) {
                Some(o) => o,
                None => Seq::empty(),
            };
            if op == "ready"@ {
                match ready_from_json(j) {
                    Some(r) => Ok(Some(ServerMessageView::Ready(r))),
                    None => Err(ErrorKind::JsonShape),
                }
            } else if op == "stats"@ {
                match stats_from_json(j) {
                    Some(s) => Ok(Some(ServerMessageView::Stats(s))),
                    None => Err(ErrorKind::JsonShape),
                }
            } else if op == "playerUpdate"@ {
                match str_field_spec(j, "guildId"@) {
                    Err(e) => Err(e),
                    Ok(guild_id) => match player_state_from_json(member_or_null(j, "state"@)) {
                        Some(state) => Ok(Some(ServerMessageView::PlayerUpdate(PlayerUpdateView { guild_id, state }))),
                        None => Err(ErrorKind::JsonShape),
                    },
                }
            } else if op == "event"@ {
                match normalize_event_spec(j) {
                    Ok(Some(e)) => Ok(Some(ServerMessageView::Event(e))),
                    Ok(None) => Ok(None),
                    Err(e) => Err(e),
                }
            } else {
                Ok(None)
            }
        },
    }
}

fn str_field(value: &JsonValue, key: &str) -> (r: Result<String>)
    ensures
        match (r, str_field_spec(value@, key@)) {
            (Ok(s), Ok(t)) => s@ == t,
            (Err(e), Err(k)) => e.kind() == k,
            _ => false,
        },
{
    match value.get(key) {
        Some(JsonValue::Str(s)) => Ok(s.clone()),
        _ => {
            let mut msg = string_of("missing string field ");
            let d = debug_str(key);
            msg.append(d.as_str());
            Err(Error::Other(msg))
        },
    }
}

fn str_member_of(value: &JsonValue, key: &str) -> (r: Option<String>)
    ensures
        opt_view(r) == str_member(value@, key@),
{
    match value.get(key) {
        Some(JsonValue::Str(s)) => Some(s.clone()),
        _ => None,
    }
}

fn first_str(value: &JsonValue, first: &str, second: &str) -> (r: Option<String>)
    ensures
        opt_view(r) == first_str_of(value@, first@, second@),
{
    match value.get(first) {
        Some(JsonValue::Str(s)) => Some(s.clone()),
        Some(_) => None,
        None => str_member_of(value, second),
    }
}

fn member_or_null_of(value: &JsonValue, key: &str) -> (r: JsonValue)
    ensures
        r@ == member_or_null(value@, key@),
{
    match value.get(key) {
        Some(x) => x.deep_clone(),
        None => JsonValue::Null,
    }
}

/// The value of a field that must be present, or the error that names it.
pub fn require<T>(opt: Option<T>, key: &str) -> (r: Result<T>)
    ensures
        opt is Some <==> r is Ok,
        r matches Ok(v) ==> opt == Some(v),
        r matches Err(e) ==> e.kind() == ErrorKind::Other("missing field "@ + str_debug(key@)),
{
    match opt {
        Some(v) => Ok(v),
        None => {
            let mut msg = string_of("missing field ");
            let d = debug_str(key);
            msg.append(d.as_str());
            Err(Error::Other(msg))
        },
    }
}

fn normalize_event(value: &JsonValue) -> (r: Result<Option<Event>>)
    ensures
        res_opt_view(r) == normalize_event_spec(value@),
{
    let kind = match str_member_of(value, "type") {
        Some(k) => k,
        None => String::new(),
    };
    let guild_id = match str_field(value, "guildId") {
        Ok(g) => g,
        Err(e) => return Err(e),
    };
    let encoded = first_str(value, "encodedTrack", "track");
    let kind = kind.as_str();
    if str_eq(kind, "TrackStartEvent") {
        match require(encoded, "encodedTrack") {
            Err(e) => Err(e),
            Ok(enc) => Ok(Some(Event::TrackStartEvent { guild_id, track: EventTrack::from_encoded(enc) })),
        }
    } else if str_eq(kind, "TrackEndEvent") {
        match require(encoded, "encodedTrack") {
            Err(e) => Err(e),
            Ok(enc) => {
                let rv = member_or_null_of(value, "reason");
                match TrackEndReason::from_json(&rv) {
                    None => Err(shape_error("invalid TrackEndReason")),
                    Some(reason) => Ok(Some(Event::TrackEndEvent { guild_id, track: EventTrack::from_encoded(enc), reason })),
                }
            },
        }
    } else if str_eq(kind, "TrackExceptionEvent") {
        match require(encoded, "encodedTrack") {
            Err(e) => Err(e),
            Ok(enc) => {
                let xv = member_or_null_of(value, "exception");
                match Exception::from_json(&xv) {
                    None => Err(shape_error("invalid Exception")),
                    Some(exception) => Ok(Some(Event::TrackExceptionEvent { guild_id, track: EventTrack::from_encoded(enc), exception })),
                }
            },
        }
    } else if str_eq(kind, "TrackStuckEvent") {
        match require(encoded, "encodedTrack") {
            Err(e) => Err(e),
            Ok(enc) => {
                let threshold_ms: u64 = match value.get("thresholdMs") {
                    Some(x) => match x.int_in(0, u64::MAX as i128) {
                        Some(v) => v as u64,
                        None => 0,
                    },
                    None => 0,
                };
                Ok(Some(Event::TrackStuckEvent { guild_id, track: EventTrack::from_encoded(enc), threshold_ms }))
            },
        }
    } else if str_eq(kind, "WebSocketClosedEvent") {
        let code_wide: i64 = match value.get("code") {
            Some(x) => match x.int_in(i64::MIN as i128, i64::MAX as i128) {
                Some(v) => v as i64,
                None => 0,
            },
            None => 0,
        };
        let reason = match str_member_of(value, "reason") {
            Some(r) => r,
            None => String::new(),
        };
        let by_remote = match value.get("byRemote") {
            Some(JsonValue::Bool(b)) => *b,
            _ => false,
        };
        Ok(Some(Event::WebSocketClosedEvent { guild_id, code: code_wide as i32, reason, by_remote }))
    } else {
        Ok(None)
    }
}

/// Convert a raw v3 WebSocket message into the version-neutral
/// [`ServerMessage`]. Returns `Ok(None)` for messages that are not read.
pub fn normalize_message(raw: &str) -> (r: Result<Option<ServerMessage>>)
    ensures
        res_opt_view(r) == normalize_message_spec(raw@),
{
    let value = match parse_json(raw) {
        Ok(v) => v,
        Err(e) => return Err(Error::Json(JsonError::Syntax(e))),
    };
    let op = match str_member_of(&value, "op") {
        Some(o) => o,
        None => String::new(),
    };
    let op = op.as_str();
    if str_eq(op, "ready") {
        match Ready::from_json(&value) {
            Some(r) => Ok(Some(ServerMessage::Ready(r))),
            None => Err(shape_error("invalid Ready")),
        }
    } else if str_eq(op, "stats") {
        match Stats::from_json(&value) {
            Some(s) => Ok(Some(ServerMessage::Stats(s))),
            None => Err(shape_error("invalid Stats")),
        }
    } else if str_eq(op, "playerUpdate") {
        let guild_id = match str_field(&value, "guildId") {
            Ok(g) => g,
            Err(e) => return Err(e),
        };
        let sv = member_or_null_of(&value, "state");
        match PlayerState::from_json(&sv) {
            Some(state) => Ok(Some(ServerMessage::PlayerUpdate(PlayerUpdate { guild_id, state }))),
            None => Err(shape_error("invalid PlayerState")),
        }
    } else if str_eq(op, "event") {
        match normalize_event(&value) {
            Ok(Some(e)) => Ok(Some(ServerMessage::Event(e))),
            Ok(None) => Ok(None),
            Err(e) => Err(e),
        }
    } else {
        Ok(None)
    }
}

// ---------------------------------------------------------------------
// Reading v3 loadtracks responses
// ---------------------------------------------------------------------

/// A v3 track object (`{encoded, track, info}`) read into a [`Track`]:
/// the encoded string from `encoded` when present, else from `track`.
pub open spec fn v3_track_spec(j: Json) -> core::result::Result<TrackView, ErrorKind> {
    match first_str_of(j, "encoded"@, "track"@) {
        None => Err(ErrorKind::Other("v3 track missing encoded/track"@)),
        Some(encoded) => match track_info_from_json(member_or_null(j, "info"@)) {
            None => Err(ErrorKind::JsonShape),
            Some(info) => Ok(TrackView { encoded, info, plugin_info: Json::Null, user_data: Json::Null }),
        },
    }
}

/// The tracks of a list of v3 track objects, or the error of the first one
/// that cannot be read.
pub open spec fn v3_track_list(items: Seq<Json>) -> core::result::Result<Seq<TrackView>, ErrorKind>
    decreases items.len(),
{
    if items.len() == 0 {
        Ok(Seq::empty())
    } else {
        match v3_track_spec(items[0]) {
            Err(e) => Err(e),
            Ok(t) => match v3_track_list(items.drop_first()) {
                Ok(rest) => Ok(seq![t] + rest),
                Err(e) => Err(e),
            },
        }
    }
}

/// The `tracks` array of a v3 response; no tracks when it is absent or not
/// an array.
pub open spec fn v3_tracks(j: Json) -> core::result::Result<Seq<TrackView>, ErrorKind> {
    match field(j, "tracks"@) {
        Some(Json::Array(items)) => v3_track_list(items),
        _ => Ok(Seq::empty()),
    }
}

/// The v3 `playlistInfo` read into a [`PlaylistInfo`]: the name is empty
/// when absent, and the selected track is -1 when absent (the `i64` read is
/// cut to `i32`).
pub open spec fn v3_playlist_info(j: Json) -> PlaylistInfoView {
    let info = member_or_null(j, "playlistInfo"@);
    PlaylistInfoView {
        name: match str_member(info, "name"@) {
            Some(n) => n,
            None => Seq::empty(),
        },
        selected_track: (match field(info, "selectedTrack"@) {
            Some(x) => match json_int_in(x, i64::MIN as int, i64::MAX as int) {
                Some(v) => v,
                None => -1,
            },
            None => -1,
        }) as i32,
    }
}

/// A v3 `/loadtracks` response read into the version-neutral [`LoadResult`].
pub open spec fn normalize_load_result_spec(j: Json) -> core::result::Result<LoadResultView, ErrorKind> {
    match str_field_spec(j, "loadType"@) {
        Err(e) => Err(e),
        Ok(t) => if t == "TRACK_LOADED"@ {
            match v3_tracks(j) {
                Err(e) => Err(e),
                Ok(ts) => if ts.len() == 0 {
                    Err(ErrorKind::Other("TRACK_LOADED with no tracks"@))
                } else {
                    Ok(LoadResultView::Track(ts[0]))
                },
            }
        } else if t == "SEARCH_RESULT"@ {
            match v3_tracks(j) {
                Err(e) => Err(e),
                Ok(ts) => Ok(LoadResultView::Search(ts)),
            }
        } else if t == "PLAYLIST_LOADED"@ {
            match v3_tracks(j) {
                Err(e) => Err(e),
                Ok(ts) => Ok(LoadResultView::Playlist(PlaylistView {
                    info: v3_playlist_info(j),
                    plugin_info: Json::Null,
                    tracks: ts,
                })),
            }
        } else if t == "NO_MATCHES"@ {
            Ok(LoadResultView::Empty)
        } else if t == "LOAD_FAILED"@ {
            match exception_from_json(member_or_null(j, "exception"@)) {
                Some(x) => Ok(LoadResultView::Error(x)),
                None => Err(ErrorKind::JsonShape),
            }
        } else {
            Err(ErrorKind::Other("unknown v3 loadType "@ + str_debug(t)))
        },
    }
}

fn v3_track(value: &JsonValue) -> (r: Result<Track>)
    ensures
        res_view(r) == v3_track_spec(value@),
{
    let encoded = match first_str(value, "encoded", "track") {
        Some(e) => e,
        None => return Err(other_error("v3 track missing encoded/track")),
    };
    let iv = member_or_null_of(value, "info");
    match TrackInfo::from_json(&iv) {
        Some(info) => Ok(Track { encoded, info, plugin_info: JsonValue::Null, user_data: JsonValue::Null }),
        None => Err(shape_error("invalid TrackInfo")),
    }
}

fn v3_track_vec(value: &JsonValue) -> (r: Result<Vec<Track>>)
    ensures
        match (r, v3_tracks(value@)) {
            (Ok(ts), Ok(vs)) => tracks_view(ts@) == vs,
            (Err(e), Err(k)) => e.kind() == k,
            _ => false,
        },
{
    match value.get("tracks") {
        Some(JsonValue::Array(a)) => {
            let ghost items = match field(value@, "tracks"@) {
                Some(Json::Array(x)) => x,
                _ => Seq::empty(),
            };
            assert(items.len() == a@.len());
            assert(items.skip(0) =~= items);
            let mut out: Vec<Track> = Vec::new();
            let mut i: usize = 0;
            while i < a.len()
                invariant
                    i <= a.len(),
                    items.len() == a@.len(),
                    forall|k: int| 0 <= k < a@.len() ==> #[trigger] items[k] == a@[k]@,
                    v3_tracks(value@) == v3_track_list(items),
                    v3_track_list(items) == match v3_track_list(items.skip(i as int)) {
                        Ok(rest) => Ok(tracks_view(out@) + rest),
                        Err(e) => Err(e),
                    },
                decreases a.len() - i,
            {
                let ghost rest = items.skip(i as int);
                assert(rest[0] == items[i as int]);
                assert(rest.drop_first() =~= items.skip(i + 1));
                match v3_track(&a[i]) {
                    Ok(t) => {
                        let ghost before = tracks_view(out@);
                        out.push(t);
                        assert(tracks_view(out@) =~= before + seq![t@]);
                        proof {
                            match v3_track_list(items.skip(i + 1)) {
                                Ok(r2) => {
                                    assert(before + (seq![t@] + r2) =~= tracks_view(out@) + r2);
                                },
                                Err(_) => {},
                            }
                        }
                    },
                    Err(e) => return Err(e),
                }
                i = i + 1;
            }
            assert(items.skip(i as int) =~= Seq::<Json>::empty());
            assert(tracks_view(out@) + Seq::<TrackView>::empty() =~= tracks_view(out@));
            Ok(out)
        },
        _ => {
            let out: Vec<Track> = Vec::new();
            assert(tracks_view(out@) =~= Seq::<TrackView>::empty());
            Ok(out)
        },
    }
}

/// Convert a v3 `/loadtracks` response into the version-neutral
/// [`LoadResult`].
pub fn normalize_load_result(value: &JsonValue) -> (r: Result<LoadResult>)
    ensures
        res_view(r) == normalize_load_result_spec(value@),
{
    let load_type = match str_field(value, "loadType") {
        Ok(t) => t,
        Err(e) => return Err(e),
    };
    let t = load_type.as_str();
    if str_eq(t, "TRACK_LOADED") {
        let mut ts = match v3_track_vec(value) {
            Ok(ts) => ts,
            Err(e) => return Err(e),
        };
        if ts.len() == 0 {
            Err(other_error("TRACK_LOADED with no tracks"))
        } else {
            let first = ts.remove(0);
            Ok(LoadResult::Track(first))
        }
    } else if str_eq(t, "SEARCH_RESULT") {
        match v3_track_vec(value) {
            Ok(ts) => Ok(LoadResult::Search(ts)),
            Err(e) => Err(e),
        }
    } else if str_eq(t, "PLAYLIST_LOADED") {
        let info = member_or_null_of(value, "playlistInfo");
        let name = match str_member_of(&info, "name") {
            Some(n) => n,
            None => String::new(),
        };
        let sel: i64 = match info.get("selectedTrack") {
            Some(x) => match x.int_in(i64::MIN as i128, i64::MAX as i128) {
                Some(v) => v as i64,
                None => -1,
            },
            None => -1,
        };
        let tracks = match v3_track_vec(value) {
            Ok(ts) => ts,
            Err(e) => return Err(e),
        };
        Ok(LoadResult::Playlist(Playlist {
            info: PlaylistInfo { name, selected_track: sel as i32 },
            plugin_info: JsonValue::Null,
            tracks,
        }))
    } else if str_eq(t, "NO_MATCHES") {
        Ok(LoadResult::Empty)
    } else if str_eq(t, "LOAD_FAILED") {
        let xv = member_or_null_of(value, "exception");
        match Exception::from_json(&xv) {
            Some(x) => Ok(LoadResult::Error(x)),
            None => Err(shape_error("invalid Exception")),
        }
    } else {
        let mut msg = string_of("unknown v3 loadType ");
        let d = debug_str(t);
        msg.append(d.as_str());
        Err(Error::Other(msg))
    }
}

/// A v3 message whose `ready`, `stats` or `playerUpdate` body already has the
/// v4 shape is read exactly as the v4 decoder reads it.
pub proof fn law_v3_shared_shapes_read_as_v4(raw: Seq<char>, j: Json, m: ServerMessageView)
    requires
        json_text_model(raw) == Some(j),
        server_message_from_json(j) == Some(m),
        !(m is Event),
    ensures
        normalize_message_spec(raw) == Ok::<Option<ServerMessageView>, ErrorKind>(Some(m)),
{
    reveal_strlit("ready");
    reveal_strlit("stats");
    reveal_strlit("playerUpdate");
    reveal_strlit("event");
    assert("ready"@[0] != "stats"@[0]);
    assert("ready"@.len() != "playerUpdate"@.len());
    assert("stats"@.len() != "playerUpdate"@.len());
    assert("ready"@[0] != "event"@[0]);
    assert("stats"@[0] != "event"@[0]);
    assert("playerUpdate"@.len() != "event"@.len());
}

/// A v3 `ready` or `stats` message is read exactly as the v4 decoder reads
/// it: to the same message when the v4 decoder reads it, and as a shape
/// error when it does not.
pub proof fn law_v3_ready_and_stats_read_as_v4(raw: Seq<char>, j: Json)
    requires
        json_text_model(raw) == Some(j),
        str_member(j, "op"@) == Some("ready"@) || str_member(j, "op"@) == Some("stats"@),
    ensures
        normalize_message_spec(raw) == match server_message_from_json(j) {
            Some(m) => Ok::<Option<ServerMessageView>, ErrorKind>(Some(m)),
            None => Err::<Option<ServerMessageView>, ErrorKind>(ErrorKind::JsonShape),
        },
{
    reveal_strlit("ready");
    reveal_strlit("stats");
    reveal_strlit("playerUpdate");
    assert("ready"@[0] != "stats"@[0]);
    assert("ready"@.len() != "playerUpdate"@.len());
    assert("stats"@.len() != "playerUpdate"@.len());
}

} // verus!
