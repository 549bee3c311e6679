//! What the reading of v3 responses and events takes from where, and what
//! the v3 ops carry.

use vstd::prelude::*;

use crate::error::ErrorKind;
use crate::json::{json_text_model, field, json_int_in, json_number, lemma_lookup_absent, lemma_lookup_concat, lemma_lookup_first, lemma_lookup_single, lookup, Json};
use crate::model::events::{ready_from_json, track_end_reason_from_json, EventTrackView, EventView, ServerMessageView};
use crate::model::player::player_state_from_json;
use crate::model::stats::stats_from_json;
use crate::model::load::{exception_from_json, LoadResultView};
use crate::model::track::{track_info_from_json, TrackView};
use crate::protocol::v3::{
    normalize_message_spec,
    opt_member, play_op_json, voice_update_op_json, member_or_null, normalize_event_spec, normalize_load_result_spec, str_member, v3_track_list, v3_track_spec, v3_tracks,
};

verus! {

/// A v3 list of track objects reads item by item, in order: as many tracks
/// as items, each the track of its own item.
pub proof fn lemma_v3_track_list(items: Seq<Json>)
    ensures
        v3_track_list(items) matches Ok(ts) ==> ts.len() == items.len()
            && forall|i: int| 0 <= i < items.len() ==> v3_track_spec(#[trigger] items[i]) == Ok::<TrackView, ErrorKind>(ts[i]),
    decreases items.len(),
{
    if items.len() > 0 {
        let rest = items.drop_first();
        lemma_v3_track_list(rest);
        if let Ok(ts) = v3_track_list(items) {
            let t0 = v3_track_spec(items[0])->Ok_0;
            let tr = v3_track_list(rest)->Ok_0;
            assert(ts == seq![t0] + tr);
            assert forall|i: int| 0 <= i < items.len() implies v3_track_spec(#[trigger] items[i]) == Ok::<TrackView, ErrorKind>(ts[i]) by {
                if i > 0 {
                    assert(items[i] == rest[i - 1]);
                }
            }
        }
    }
}

/// A v3 track takes its encoded string from `encoded`, or from `track` when
/// `encoded` is absent, and its info from `info`; it carries no plugin or
/// user data.
pub proof fn law_v3_track_reads_its_members(j: Json, t: TrackView)
    requires
        v3_track_spec(j) == Ok::<TrackView, ErrorKind>(t),
    ensures
        field(j, "encoded"@) is Some ==> field(j, "encoded"@) == Some(Json::Str(t.encoded)),
        field(j, "encoded"@) is None ==> field(j, "track"@) == Some(Json::Str(t.encoded)),
        track_info_from_json(member_or_null(j, "info"@)) == Some(t.info),
        t.plugin_info == Json::Null,
        t.user_data == Json::Null,
{
}

/// The items of a response's `tracks` array (none when it is absent or not
/// an array).
pub open spec fn tracks_items(j: Json) -> Seq<Json> {
    match field(j, "tracks"@) {
        Some(Json::Array(items)) => items,
        _ => Seq::empty(),
    }
}

/// A v3 `/loadtracks` response reads by its `loadType`: `TRACK_LOADED`
/// gives the track of the first item of `tracks`; `SEARCH_RESULT` and
/// `PLAYLIST_LOADED` give one track per item, in order (the playlist named
/// by `playlistInfo`, with -1 as the selected track when none is given);
/// `NO_MATCHES` gives nothing; `LOAD_FAILED` gives the exception under
/// `exception`.
pub proof fn law_v3_load_result_reads_its_members(j: Json, r: LoadResultView)
    requires
        normalize_load_result_spec(j) == Ok::<LoadResultView, ErrorKind>(r),
    ensures
        r matches LoadResultView::Track(t) ==> str_member(j, "loadType"@) == Some("TRACK_LOADED"@)
            && tracks_items(j).len() > 0 && v3_track_spec(tracks_items(j)[0]) == Ok::<TrackView, ErrorKind>(t),
        r matches LoadResultView::Search(ts) ==> str_member(j, "loadType"@) == Some("SEARCH_RESULT"@)
            && ts.len() == tracks_items(j).len()
            && forall|i: int| 0 <= i < ts.len() ==> v3_track_spec(#[trigger] tracks_items(j)[i]) == Ok::<TrackView, ErrorKind>(ts[i]),
        r matches LoadResultView::Playlist(p) ==> str_member(j, "loadType"@) == Some("PLAYLIST_LOADED"@)
            && p.tracks.len() == tracks_items(j).len()
            && (forall|i: int| 0 <= i < p.tracks.len() ==> v3_track_spec(#[trigger] tracks_items(j)[i]) == Ok::<TrackView, ErrorKind>(p.tracks[i]))
            && p.plugin_info == Json::Null
            && (str_member(member_or_null(j, "playlistInfo"@), "name"@) matches Some(n) ==> p.info.name == n)
            && (field(member_or_null(j, "playlistInfo"@), "selectedTrack"@) is None ==> p.info.selected_track == -1),
        r is Empty ==> str_member(j, "loadType"@) == Some("NO_MATCHES"@),
        r matches LoadResultView::Error(x) ==> str_member(j, "loadType"@) == Some("LOAD_FAILED"@)
            && exception_from_json(member_or_null(j, "exception"@)) == Some(x),
{
    reveal_strlit("TRACK_LOADED");
    reveal_strlit("SEARCH_RESULT");
    reveal_strlit("PLAYLIST_LOADED");
    reveal_strlit("NO_MATCHES");
    reveal_strlit("LOAD_FAILED");
    assert("TRACK_LOADED"@.len() != "SEARCH_RESULT"@.len());
    assert("TRACK_LOADED"@.len() != "PLAYLIST_LOADED"@.len());
    assert("TRACK_LOADED"@.len() != "NO_MATCHES"@.len());
    assert("TRACK_LOADED"@.len() != "LOAD_FAILED"@.len());
    assert("SEARCH_RESULT"@.len() != "PLAYLIST_LOADED"@.len());
    assert("SEARCH_RESULT"@.len() != "NO_MATCHES"@.len());
    assert("SEARCH_RESULT"@.len() != "LOAD_FAILED"@.len());
    assert("PLAYLIST_LOADED"@.len() != "NO_MATCHES"@.len());
    assert("PLAYLIST_LOADED"@.len() != "LOAD_FAILED"@.len());
    assert("NO_MATCHES"@[0] != "LOAD_FAILED"@[0]);
    lemma_v3_track_list(tracks_items(j));
    if let Some(Json::Array(items)) = field(j, "tracks"@) {
        assert(v3_tracks(j) == v3_track_list(items));
    } else {
        assert(v3_tracks(j) == Ok::<Seq<TrackView>, ErrorKind>(Seq::empty()));
    }
}

/// A v3 event reads by its `type`, with the guild from `guildId`: a track
/// event carries the encoded string under `encodedTrack` (or the older
/// `track` when `encodedTrack` is absent) and no track info; an end reason
/// is read from `reason` and an exception from `exception`; a closed
/// socket takes its reason from `reason` (empty when absent or not a
/// string) and `byRemote` from its member (`false` when absent or not a
/// boolean).
pub proof fn law_v3_event_reads_its_members(j: Json, e: EventView)
    requires
        normalize_event_spec(j) == Ok::<Option<EventView>, ErrorKind>(Some(e)),
    ensures
        e matches EventView::TrackStartEvent { guild_id, track } ==> str_member(j, "type"@) == Some("TrackStartEvent"@)
            && str_member(j, "guildId"@) == Some(guild_id) && v3_event_track(j, track),
        e matches EventView::TrackEndEvent { guild_id, track, reason } ==> str_member(j, "type"@) == Some("TrackEndEvent"@)
            && str_member(j, "guildId"@) == Some(guild_id) && v3_event_track(j, track)
            && track_end_reason_from_json(member_or_null(j, "reason"@)) == Some(reason),
        e matches EventView::TrackExceptionEvent { guild_id, track, exception } ==> str_member(j, "type"@) == Some("TrackExceptionEvent"@)
            && str_member(j, "guildId"@) == Some(guild_id) && v3_event_track(j, track)
            && exception_from_json(member_or_null(j, "exception"@)) == Some(exception),
        e matches EventView::TrackStuckEvent { guild_id, track, threshold_ms } ==> str_member(j, "type"@) == Some("TrackStuckEvent"@)
            && str_member(j, "guildId"@) == Some(guild_id) && v3_event_track(j, track)
            && (field(j, "thresholdMs"@) is Some && json_int_in(field(j, "thresholdMs"@)->0, 0, u64::MAX as int) is Some
                ==> threshold_ms as int == json_int_in(field(j, "thresholdMs"@)->0, 0, u64::MAX as int)->0),
        e matches EventView::WebSocketClosedEvent { guild_id, code, reason, by_remote } ==> str_member(j, "type"@) == Some("WebSocketClosedEvent"@)
            && str_member(j, "guildId"@) == Some(guild_id)
            && (field(j, "code"@) is Some && json_int_in(field(j, "code"@)->0, i32::MIN as int, i32::MAX as int) is Some
                ==> code as int == json_int_in(field(j, "code"@)->0, i32::MIN as int, i32::MAX as int)->0)
            && (str_member(j, "reason"@) matches Some(s) ==> reason == s)
            && (str_member(j, "reason"@) is None ==> reason == Seq::<char>::empty())
            && (field(j, "byRemote"@) matches Some(Json::Bool(b)) ==> by_remote == b)
            && (!(field(j, "byRemote"@) matches Some(Json::Bool(_))) ==> !by_remote),
{
    reveal_strlit("TrackStartEvent");
    reveal_strlit("TrackEndEvent");
    reveal_strlit("TrackExceptionEvent");
    reveal_strlit("TrackStuckEvent");
    reveal_strlit("WebSocketClosedEvent");
    assert("TrackStartEvent"@[7] != "TrackStuckEvent"@[7]);
    assert("TrackStartEvent"@.len() != "TrackEndEvent"@.len());
    assert("TrackStartEvent"@.len() != "TrackExceptionEvent"@.len());
    assert("TrackStartEvent"@.len() != "WebSocketClosedEvent"@.len());
    assert("TrackEndEvent"@.len() != "TrackExceptionEvent"@.len());
    assert("TrackEndEvent"@.len() != "TrackStuckEvent"@.len());
    assert("TrackEndEvent"@.len() != "WebSocketClosedEvent"@.len());
    assert("TrackExceptionEvent"@.len() != "TrackStuckEvent"@.len());
    assert("TrackExceptionEvent"@.len() != "WebSocketClosedEvent"@.len());
    assert("TrackStuckEvent"@.len() != "WebSocketClosedEvent"@.len());
}

/// The track of a v3 event: the encoded string under `encodedTrack`, or
/// under `track` when `encodedTrack` is absent, and no info.
pub open spec fn v3_event_track(j: Json, t: EventTrackView) -> bool {
    &&& t.info is None
    &&& field(j, "encodedTrack"@) is Some ==> field(j, "encodedTrack"@) == Some(Json::Str(t.encoded))
    &&& field(j, "encodedTrack"@) is None ==> field(j, "track"@) == Some(Json::Str(t.encoded))
}

/// An optional member holds its own key only, and only when present.
pub proof fn lemma_lookup_opt_member(k: Seq<char>, o: Option<Json>, key: Seq<char>)
    ensures
        lookup(opt_member(k, o), key) == (if k == key { o } else { None::<Json> }),
{
    match o {
        Some(v) => lemma_lookup_single(k, v, key),
        None => assert(lookup(Seq::<(Seq<char>, Json)>::empty(), key) is None),
    }
}

/// The `voiceUpdate` op carries the guild under `guildId`, the voice
/// session under `sessionId`, and in its `event` the token under `token`,
/// the endpoint under `endpoint` and the guild under `guildId`.
pub proof fn law_voice_update_op_members(guild_id: Seq<char>, token: Seq<char>, endpoint: Seq<char>, session_id: Seq<char>)
    ensures
        ({
            let op = voice_update_op_json(guild_id, token, endpoint, session_id);
            let event = field(op, "event"@)->0;
            &&& field(op, "op"@) == Some(Json::Str("voiceUpdate"@))
            &&& field(op, "guildId"@) == Some(Json::Str(guild_id))
            &&& field(op, "sessionId"@) == Some(Json::Str(session_id))
            &&& field(op, "event"@) is Some
            &&& field(event, "token"@) == Some(Json::Str(token))
            &&& field(event, "endpoint"@) == Some(Json::Str(endpoint))
            &&& field(event, "guildId"@) == Some(Json::Str(guild_id))
        }),
{
    reveal_strlit("op");
    reveal_strlit("guildId");
    reveal_strlit("sessionId");
    reveal_strlit("event");
    reveal_strlit("token");
    reveal_strlit("endpoint");
    let e = match voice_update_op_json(guild_id, token, endpoint, session_id) { Json::Object(x) => x, _ => Seq::empty() };
    assert(e[0].0 == "op"@);
    assert(e[1].0 == "guildId"@);
    assert(e[2].0 == "sessionId"@);
    assert(e[3].0 == "event"@);
    lemma_lookup_first(e, 0);
    lemma_lookup_first(e, 1);
    lemma_lookup_first(e, 2);
    lemma_lookup_first(e, 3);
    let v = match e[3].1 { Json::Object(x) => x, _ => Seq::empty() };
    assert(v[0].0 == "token"@);
    assert(v[1].0 == "endpoint"@);
    assert(v[2].0 == "guildId"@);
    lemma_lookup_first(v, 0);
    lemma_lookup_first(v, 1);
    lemma_lookup_first(v, 2);
}

/// The number member of an optional integer.
pub open spec fn opt_number(o: Option<int>) -> Option<Json> {
    match o {
        Some(v) => Some(json_number(v)),
        None => None,
    }
}

/// The `play` op carries the guild under `guildId`, the encoded track under
/// `track`, `noReplace`, and each optional setting under its own name only
/// when it is set: `startTime`, `endTime`, `volume` and `pause`.
pub proof fn law_play_op_members(
    guild_id: Seq<char>,
    encoded: Seq<char>,
    start_ms: Option<i64>,
    end_ms: Option<i64>,
    volume: Option<i32>,
    paused: Option<bool>,
    no_replace: bool,
)
    ensures
        ({
            let op = play_op_json(guild_id, encoded, start_ms, end_ms, volume, paused, no_replace);
            &&& field(op, "op"@) == Some(Json::Str("play"@))
            &&& field(op, "guildId"@) == Some(Json::Str(guild_id))
            &&& field(op, "track"@) == Some(Json::Str(encoded))
            &&& field(op, "noReplace"@) == Some(Json::Bool(no_replace))
            &&& field(op, "startTime"@) == opt_number(match start_ms { Some(v) => Some(v as int), None => None })
            &&& field(op, "endTime"@) == opt_number(match end_ms { Some(v) => Some(v as int), None => None })
            &&& field(op, "volume"@) == opt_number(match volume { Some(v) => Some(v as int), None => None })
            &&& field(op, "pause"@) == (match paused { Some(b) => Some(Json::Bool(b)), None => None::<Json> })
        }),
{
    reveal_strlit("op");
    reveal_strlit("guildId");
    reveal_strlit("track");
    reveal_strlit("noReplace");
    reveal_strlit("startTime");
    reveal_strlit("endTime");
    reveal_strlit("volume");
    reveal_strlit("pause");
    let head = seq![("op"@, Json::Str("play"@))];
    let base = seq![("guildId"@, Json::Str(guild_id)), ("track"@, Json::Str(encoded)), ("noReplace"@, Json::Bool(no_replace))];
    let a = opt_member("startTime"@, match start_ms { Some(v) => Some(json_number(v as int)), None => None });
    let b = opt_member("endTime"@, match end_ms { Some(v) => Some(json_number(v as int)), None => None });
    let c = opt_member("volume"@, match volume { Some(v) => Some(json_number(v as int)), None => None });
    let d = opt_member("pause"@, match paused { Some(v) => Some(Json::Bool(v)), None => None });
    let rest = base + a + b + c + d;
    assert(play_op_json(guild_id, encoded, start_ms, end_ms, volume, paused, no_replace) == Json::Object(head + rest));
    assert("startTime"@[0] != "endTime"@[0]);
    assert("volume"@.len() != "startTime"@.len());
    assert("volume"@.len() != "endTime"@.len());
    assert("volume"@.len() != "pause"@.len());
    assert("pause"@.len() != "startTime"@.len());
    assert("pause"@.len() != "endTime"@.len());
    assert("track"@.len() != "startTime"@.len() && "track"@.len() != "endTime"@.len() && "track"@.len() != "volume"@.len());
    assert("track"@[0] != "pause"@[0]);
    assert("guildId"@.len() != "startTime"@.len() && "guildId"@[0] != "endTime"@[0] && "guildId"@.len() != "volume"@.len()
        && "guildId"@.len() != "pause"@.len() && "guildId"@.len() != "track"@.len() && "guildId"@.len() != "noReplace"@.len());
    assert("noReplace"@[0] != "startTime"@[0] && "noReplace"@.len() != "endTime"@.len() && "noReplace"@.len() != "volume"@.len()
        && "noReplace"@.len() != "pause"@.len() && "noReplace"@.len() != "track"@.len());
    assert("op"@.len() != "guildId"@.len() && "op"@.len() != "track"@.len() && "op"@.len() != "noReplace"@.len()
        && "op"@.len() != "startTime"@.len() && "op"@.len() != "endTime"@.len() && "op"@.len() != "volume"@.len() && "op"@.len() != "pause"@.len());
    assert(base[0].0 == "guildId"@ && base[1].0 == "track"@ && base[2].0 == "noReplace"@);
    let keys = seq!["op"@, "guildId"@, "track"@, "noReplace"@, "startTime"@, "endTime"@, "volume"@, "pause"@];
    assert forall|i: int| 0 <= i < keys.len() implies
        lookup(head + rest, #[trigger] keys[i]) == (if lookup(head, keys[i]) is Some { lookup(head, keys[i]) }
            else if lookup(base, keys[i]) is Some { lookup(base, keys[i]) }
            else if lookup(a, keys[i]) is Some { lookup(a, keys[i]) }
            else if lookup(b, keys[i]) is Some { lookup(b, keys[i]) }
            else if lookup(c, keys[i]) is Some { lookup(c, keys[i]) }
            else { lookup(d, keys[i]) }) by {
        let k = keys[i];
        lemma_lookup_concat(head, rest, k);
        lemma_lookup_concat(base + a + b + c, d, k);
        lemma_lookup_concat(base + a + b, c, k);
        lemma_lookup_concat(base + a, b, k);
        lemma_lookup_concat(base, a, k);
    }
    assert forall|i: int| 0 <= i < keys.len() implies
        lookup(head, #[trigger] keys[i]) == (if i == 0 { Some(Json::Str("play"@)) } else { None::<Json> })
        && lookup(a, keys[i]) == (if i == 4 { match start_ms { Some(v) => Some(json_number(v as int)), None => None } } else { None::<Json> })
        && lookup(b, keys[i]) == (if i == 5 { match end_ms { Some(v) => Some(json_number(v as int)), None => None } } else { None::<Json> })
        && lookup(c, keys[i]) == (if i == 6 { match volume { Some(v) => Some(json_number(v as int)), None => None } } else { None::<Json> })
        && lookup(d, keys[i]) == (if i == 7 { match paused { Some(v) => Some(Json::Bool(v)), None => None } } else { None::<Json> })
        && lookup(base, keys[i]) == (if i == 1 { Some(Json::Str(guild_id)) } else if i == 2 { Some(Json::Str(encoded)) }
            else if i == 3 { Some(Json::Bool(no_replace)) } else { None::<Json> }) by {
        let k = keys[i];
        lemma_lookup_single("op"@, Json::Str("play"@), k);
        lemma_lookup_opt_member("startTime"@, match start_ms { Some(v) => Some(json_number(v as int)), None => None }, k);
        lemma_lookup_opt_member("endTime"@, match end_ms { Some(v) => Some(json_number(v as int)), None => None }, k);
        lemma_lookup_opt_member("volume"@, match volume { Some(v) => Some(json_number(v as int)), None => None }, k);
        lemma_lookup_opt_member("pause"@, match paused { Some(v) => Some(Json::Bool(v)), None => None }, k);
        if 1 <= i <= 3 {
            lemma_lookup_first(base, i - 1);
        } else {
            lemma_lookup_absent(base, k);
        }
    }
    assert(keys[0] == "op"@);
    assert(keys[1] == "guildId"@);
    assert(keys[2] == "track"@);
    assert(keys[3] == "noReplace"@);
    assert(keys[4] == "startTime"@);
    assert(keys[5] == "endTime"@);
    assert(keys[6] == "volume"@);
    assert(keys[7] == "pause"@);
}

/// A v3 message reads by its `op`: `ready` and `stats` as the v4 shapes,
/// `playerUpdate` with the guild from `guildId` and the state from `state`,
/// and `event` as a v3 event.
pub proof fn law_v3_message_reads_its_members(raw: Seq<char>, j: Json, m: ServerMessageView)
    requires
        json_text_model(raw) == Some(j),
        normalize_message_spec(raw) == Ok::<Option<ServerMessageView>, ErrorKind>(Some(m)),
    ensures
        m matches ServerMessageView::Ready(r) ==> str_member(j, "op"@) == Some("ready"@) && ready_from_json(j) == Some(r),
        m matches ServerMessageView::Stats(st) ==> str_member(j, "op"@) == Some("stats"@) && stats_from_json(j) == Some(st),
        m matches ServerMessageView::PlayerUpdate(p) ==> str_member(j, "op"@) == Some("playerUpdate"@)
            && str_member(j, "guildId"@) == Some(p.guild_id)
            && player_state_from_json(member_or_null(j, "state"@)) == Some(p.state),
        m matches ServerMessageView::Event(e) ==> str_member(j, "op"@) == Some("event"@)
            && normalize_event_spec(j) == Ok::<Option<EventView>, ErrorKind>(Some(e)),
{
    reveal_strlit("ready");
    reveal_strlit("stats");
    reveal_strlit("playerUpdate");
    reveal_strlit("event");
    assert("ready"@[0] != "stats"@[0]);
    assert("ready"@.len() != "playerUpdate"@.len());
    assert("stats"@.len() != "playerUpdate"@.len());
    assert("ready"@[0] != "event"@[0]);
    assert("stats"@[0] != "event"@[0]);
    assert("playerUpdate"@.len() != "event"@.len());
}

} // verus!
