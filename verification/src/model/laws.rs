//! What writing a model in its JSON form and reading it back gives: the
//! same model, for every model that the node sends and the library writes.

use vstd::prelude::*;

use crate::codec::{opt_str, opt_str_json};
use crate::text::is_digit;
use crate::json::{field, lemma_json_number, lemma_lookup_absent, lemma_lookup_first, Json};
use crate::model::events::{
    event_track_from_json, event_track_json, server_message_from_json, server_message_json, track_end_reason_from_json,
    track_end_reason_json, EventTrackView, EventView, ServerMessageView, TrackEndReason,
};
use crate::model::load::{
    exception_from_json, exception_json, load_result_from_json, load_result_json, playlist_from_json, playlist_info_from_json,
    playlist_info_json, playlist_json, severity_from_json, severity_json, ExceptionView, LoadResultView, PlaylistInfoView,
    PlaylistView, Severity,
};
use crate::model::player::{
    player_from_json, player_json, player_state_from_json, player_state_json, voice_state_from_json, voice_state_json,
    PlayerState, PlayerView, VoiceStateView,
};
use crate::model::stats::{load_text, loads_as_read, req_number, cpu_from_json, cpu_json, frame_stats_from_json, frame_stats_json, memory_from_json, memory_json, CpuView, FrameStats, Memory};
use crate::model::track::{track_from_json, track_info_from_json, track_info_json, track_json, tracks_from_json, tracks_json, TrackInfoView, TrackView};

verus! {

/// An optional string written as a string or `null` reads back the same.
pub proof fn lemma_opt_str(j: Json, k: Seq<char>, o: Option<Seq<char>>)
    requires
        field(j, k) == Some(opt_str_json(o)),
    ensures
        opt_str(j, k) == Some(o),
{
}

/// Track info written as JSON reads back the same.
pub proof fn law_track_info_roundtrip(t: TrackInfoView)
    ensures
        track_info_from_json(track_info_json(t)) == Some(t),
{
    let e = match track_info_json(t) { Json::Object(x) => x, _ => Seq::empty() };
    reveal_strlit("identifier");
    reveal_strlit("isSeekable");
    reveal_strlit("author");
    reveal_strlit("length");
    reveal_strlit("isStream");
    reveal_strlit("position");
    reveal_strlit("title");
    reveal_strlit("uri");
    reveal_strlit("artworkUrl");
    reveal_strlit("isrc");
    reveal_strlit("sourceName");
    assert("identifier"@[1] != "isSeekable"@[1]);
    assert("identifier"@[0] != "artworkUrl"@[0]);
    assert("identifier"@[0] != "sourceName"@[0]);
    assert("isSeekable"@[0] != "artworkUrl"@[0]);
    assert("isSeekable"@[0] != "sourceName"@[0]);
    assert("author"@[0] != "length"@[0]);
    assert("isStream"@[0] != "position"@[0]);
    assert("artworkUrl"@[0] != "sourceName"@[0]);
    assert(e[0].0 == "identifier"@);
    assert(e[1].0 == "isSeekable"@);
    assert(e[2].0 == "author"@);
    assert(e[3].0 == "length"@);
    assert(e[4].0 == "isStream"@);
    assert(e[5].0 == "position"@);
    assert(e[6].0 == "title"@);
    assert(e[7].0 == "uri"@);
    assert(e[8].0 == "artworkUrl"@);
    assert(e[9].0 == "isrc"@);
    assert(e[10].0 == "sourceName"@);
    lemma_lookup_first(e, 0);
    lemma_lookup_first(e, 1);
    lemma_lookup_first(e, 2);
    lemma_lookup_first(e, 3);
    lemma_lookup_first(e, 4);
    lemma_lookup_first(e, 5);
    lemma_lookup_first(e, 6);
    lemma_lookup_first(e, 7);
    lemma_lookup_first(e, 8);
    lemma_lookup_first(e, 9);
    lemma_lookup_first(e, 10);
    lemma_json_number(t.length as int, 0, u64::MAX as int);
    lemma_json_number(t.position as int, 0, u64::MAX as int);
    let j = track_info_json(t);
    lemma_opt_str(j, "uri"@, t.uri);
    lemma_opt_str(j, "artworkUrl"@, t.artwork_url);
    lemma_opt_str(j, "isrc"@, t.isrc);
}

/// A track written as JSON reads back the same, its plugin and user data included.
pub proof fn law_track_roundtrip(t: TrackView)
    ensures
        track_from_json(track_json(t)) == Some(t),
{
    let e = match track_json(t) { Json::Object(x) => x, _ => Seq::empty() };
    reveal_strlit("encoded");
    reveal_strlit("info");
    reveal_strlit("pluginInfo");
    reveal_strlit("userData");
    assert(e[0].0 == "encoded"@);
    assert(e[1].0 == "info"@);
    assert(e[2].0 == "pluginInfo"@);
    assert(e[3].0 == "userData"@);
    lemma_lookup_first(e, 0);
    lemma_lookup_first(e, 1);
    lemma_lookup_first(e, 2);
    lemma_lookup_first(e, 3);
    law_track_info_roundtrip(t.info);
}

/// A list of tracks written as a JSON array reads back the same list.
pub proof fn law_tracks_roundtrip(ts: Seq<TrackView>)
    ensures
        tracks_from_json(tracks_json(ts)) == Some(ts),
{
    let items = match tracks_json(ts) { Json::Array(x) => x, _ => Seq::empty() };
    assert forall|i: int| 0 <= i < items.len() implies #[trigger] track_from_json(items[i]) == Some(ts[i]) by {
        law_track_roundtrip(ts[i]);
    }
    let back = Seq::new(items.len(), |i: int| track_from_json(items[i])->0);
    assert(back =~= ts);
}

/// A severity written as JSON reads back the same.
pub proof fn law_severity_roundtrip(s: Severity)
    ensures
        severity_from_json(severity_json(s)) == Some(s),
{
    reveal_strlit("common");
    reveal_strlit("COMMON");
    reveal_strlit("suspicious");
    reveal_strlit("SUSPICIOUS");
    reveal_strlit("fault");
    reveal_strlit("FAULT");
    assert("suspicious"@.len() != "common"@.len());
    assert("suspicious"@.len() != "COMMON"@.len());
    assert("fault"@.len() != "common"@.len());
    assert("fault"@.len() != "COMMON"@.len());
    assert("fault"@.len() != "suspicious"@.len());
    assert("fault"@.len() != "SUSPICIOUS"@.len());
}

/// An exception written as JSON reads back the same.
pub proof fn law_exception_roundtrip(x: ExceptionView)
    ensures
        exception_from_json(exception_json(x)) == Some(x),
{
    let e = match exception_json(x) { Json::Object(x) => x, _ => Seq::empty() };
    reveal_strlit("message");
    reveal_strlit("severity");
    reveal_strlit("cause");
    reveal_strlit("causeStackTrace");
    assert(e[0].0 == "message"@);
    assert(e[1].0 == "severity"@);
    assert(e[2].0 == "cause"@);
    assert(e[3].0 == "causeStackTrace"@);
    lemma_lookup_first(e, 0);
    lemma_lookup_first(e, 1);
    lemma_lookup_first(e, 2);
    lemma_lookup_first(e, 3);
    let j = exception_json(x);
    lemma_opt_str(j, "message"@, x.message);
    lemma_opt_str(j, "cause"@, x.cause);
    lemma_opt_str(j, "causeStackTrace"@, x.cause_stack_trace);
    law_severity_roundtrip(x.severity);
}

/// Playlist info written as JSON reads back the same.
pub proof fn law_playlist_info_roundtrip(p: PlaylistInfoView)
    ensures
        playlist_info_from_json(playlist_info_json(p)) == Some(p),
{
    let e = match playlist_info_json(p) { Json::Object(x) => x, _ => Seq::empty() };
    reveal_strlit("name");
    reveal_strlit("selectedTrack");
    assert(e[0].0 == "name"@);
    assert(e[1].0 == "selectedTrack"@);
    lemma_lookup_first(e, 0);
    lemma_lookup_first(e, 1);
    lemma_json_number(p.selected_track as int, i32::MIN as int, i32::MAX as int);
}

/// A playlist written as JSON reads back the same.
pub proof fn law_playlist_roundtrip(p: PlaylistView)
    ensures
        playlist_from_json(playlist_json(p)) == Some(p),
{
    let e = match playlist_json(p) { Json::Object(x) => x, _ => Seq::empty() };
    reveal_strlit("info");
    reveal_strlit("pluginInfo");
    reveal_strlit("tracks");
    assert(e[0].0 == "info"@);
    assert(e[1].0 == "pluginInfo"@);
    assert(e[2].0 == "tracks"@);
    lemma_lookup_first(e, 0);
    lemma_lookup_first(e, 1);
    lemma_lookup_first(e, 2);
    law_playlist_info_roundtrip(p.info);
    law_tracks_roundtrip(p.tracks);
}

/// A load result written in the v4 wire format reads back the same.
pub proof fn law_load_result_roundtrip(r: LoadResultView)
    ensures
        load_result_from_json(load_result_json(r)) == Some(r),
{
    reveal_strlit("loadType");
    reveal_strlit("data");
    reveal_strlit("track");
    reveal_strlit("playlist");
    reveal_strlit("search");
    reveal_strlit("empty");
    reveal_strlit("error");
    let e = match load_result_json(r) { Json::Object(x) => x, _ => Seq::empty() };
    assert(e[0].0 == "loadType"@);
    lemma_lookup_first(e, 0);
    assert("track"@.len() != "playlist"@.len());
    assert("track"@[0] != "search"@[0]);
    assert("track"@[0] != "empty"@[0]);
    assert("track"@[0] != "error"@[0]);
    assert("playlist"@.len() != "search"@.len());
    assert("playlist"@.len() != "empty"@.len());
    assert("playlist"@.len() != "error"@.len());
    assert("search"@.len() != "empty"@.len());
    assert("search"@.len() != "error"@.len());
    assert("empty"@[1] != "error"@[1]);
    match r {
        LoadResultView::Track(t) => {
            assert(e[1].0 == "data"@);
            lemma_lookup_first(e, 1);
            law_track_roundtrip(t);
        },
        LoadResultView::Playlist(p) => {
            assert(e[1].0 == "data"@);
            lemma_lookup_first(e, 1);
            law_playlist_roundtrip(p);
        },
        LoadResultView::Search(ts) => {
            assert(e[1].0 == "data"@);
            lemma_lookup_first(e, 1);
            law_tracks_roundtrip(ts);
        },
        LoadResultView::Empty => {
            lemma_lookup_absent(e, "data"@);
        },
        LoadResultView::Error(x) => {
            assert(e[1].0 == "data"@);
            lemma_lookup_first(e, 1);
            law_exception_roundtrip(x);
        },
    }
}

/// A player state written as JSON reads back the same.
pub proof fn law_player_state_roundtrip(s: PlayerState)
    ensures
        player_state_from_json(player_state_json(s)) == Some(s),
{
    let e = match player_state_json(s) { Json::Object(x) => x, _ => Seq::empty() };
    reveal_strlit("time");
    reveal_strlit("position");
    reveal_strlit("connected");
    reveal_strlit("ping");
    assert("time"@[0] != "ping"@[0]);
    assert(e[0].0 == "time"@);
    assert(e[1].0 == "position"@);
    assert(e[2].0 == "connected"@);
    assert(e[3].0 == "ping"@);
    lemma_lookup_first(e, 0);
    lemma_lookup_first(e, 1);
    lemma_lookup_first(e, 2);
    lemma_lookup_first(e, 3);
    lemma_json_number(s.time as int, i64::MIN as int, i64::MAX as int);
    lemma_json_number(s.position as int, i64::MIN as int, i64::MAX as int);
    lemma_json_number(s.ping as int, i64::MIN as int, i64::MAX as int);
}

/// A voice state written as JSON reads back the same; an absent channel stays absent.
pub proof fn law_voice_state_roundtrip(v: VoiceStateView)
    ensures
        voice_state_from_json(voice_state_json(v)) == Some(v),
{
    reveal_strlit("token");
    reveal_strlit("endpoint");
    reveal_strlit("sessionId");
    reveal_strlit("channelId");
    let e = match voice_state_json(v) { Json::Object(x) => x, _ => Seq::empty() };
    assert("sessionId"@[0] != "channelId"@[0]);
    assert(e[0].0 == "token"@);
    assert(e[1].0 == "endpoint"@);
    assert(e[2].0 == "sessionId"@);
    lemma_lookup_first(e, 0);
    lemma_lookup_first(e, 1);
    lemma_lookup_first(e, 2);
    match v.channel_id {
        Some(c) => {
            assert(e[3].0 == "channelId"@);
            lemma_lookup_first(e, 3);
        },
        None => {
            assert(e.len() == 3);
            lemma_lookup_absent(e, "channelId"@);
        },
    }
}

/// A player written as JSON reads back the same.
pub proof fn law_player_roundtrip(p: PlayerView)
    ensures
        player_from_json(player_json(p)) == Some(p),
{
    let e = match player_json(p) { Json::Object(x) => x, _ => Seq::empty() };
    reveal_strlit("guildId");
    reveal_strlit("track");
    reveal_strlit("volume");
    reveal_strlit("paused");
    reveal_strlit("state");
    reveal_strlit("voice");
    reveal_strlit("filters");
    assert("guildId"@[0] != "filters"@[0]);
    assert("track"@[0] != "state"@[0]);
    assert("track"@[0] != "voice"@[0]);
    assert("volume"@[0] != "paused"@[0]);
    assert("state"@[0] != "voice"@[0]);
    assert(e[0].0 == "guildId"@);
    assert(e[1].0 == "track"@);
    assert(e[2].0 == "volume"@);
    assert(e[3].0 == "paused"@);
    assert(e[4].0 == "state"@);
    assert(e[5].0 == "voice"@);
    assert(e[6].0 == "filters"@);
    lemma_lookup_first(e, 0);
    lemma_lookup_first(e, 1);
    lemma_lookup_first(e, 2);
    lemma_lookup_first(e, 3);
    lemma_lookup_first(e, 4);
    lemma_lookup_first(e, 5);
    lemma_lookup_first(e, 6);
    lemma_json_number(p.volume as int, i32::MIN as int, i32::MAX as int);
    law_player_state_roundtrip(p.state);
    law_voice_state_roundtrip(p.voice);
    if let Some(t) = p.track {
        law_track_roundtrip(t);
    }
}

/// Memory figures written as JSON read back the same.
pub proof fn law_memory_roundtrip(m: Memory)
    ensures
        memory_from_json(memory_json(m)) == Some(m),
{
    let e = match memory_json(m) { Json::Object(x) => x, _ => Seq::empty() };
    reveal_strlit("free");
    reveal_strlit("used");
    reveal_strlit("allocated");
    reveal_strlit("reservable");
    assert("free"@[0] != "used"@[0]);
    assert(e[0].0 == "free"@);
    assert(e[1].0 == "used"@);
    assert(e[2].0 == "allocated"@);
    assert(e[3].0 == "reservable"@);
    lemma_lookup_first(e, 0);
    lemma_lookup_first(e, 1);
    lemma_lookup_first(e, 2);
    lemma_lookup_first(e, 3);
    lemma_json_number(m.free as int, 0, u64::MAX as int);
    lemma_json_number(m.used as int, 0, u64::MAX as int);
    lemma_json_number(m.allocated as int, 0, u64::MAX as int);
    lemma_json_number(m.reservable as int, 0, u64::MAX as int);
}

/// A load read once is in its written form: reading it again leaves it as
/// it is.
pub proof fn law_load_text_settles(t: Seq<char>)
    ensures
        load_text(load_text(t)) == load_text(t),
{
    reveal_strlit(".0");
    let u = load_text(t);
    if u != t {
        let n = t.len();
        assert(u[n as int] == '.');
        assert(!is_digit(u[n as int]));
        if u.len() > 0 && u[0] == '-' {
            assert(u.drop_first()[n - 1] == '.');
        }
    }
}

/// The CPU figures that reading gives have their loads in written form.
pub proof fn law_read_cpu_loads_as_read(j: Json)
    ensures
        cpu_from_json(j) matches Some(c) ==> loads_as_read(c),
{
    if let Some(c) = cpu_from_json(j) {
        law_load_text_settles(req_number(j, "systemLoad"@)->0);
        law_load_text_settles(req_number(j, "lavalinkLoad"@)->0);
    }
}

/// CPU figures written as JSON read back the same, their loads in the form
/// that reading gives them (a whole load reads as `1.0`, not `1`).
pub proof fn law_cpu_roundtrip(c: CpuView)
    requires
        loads_as_read(c),
    ensures
        cpu_from_json(cpu_json(c)) == Some(c),
{
    let e = match cpu_json(c) { Json::Object(x) => x, _ => Seq::empty() };
    reveal_strlit("cores");
    reveal_strlit("systemLoad");
    reveal_strlit("lavalinkLoad");
    assert(e[0].0 == "cores"@);
    assert(e[1].0 == "systemLoad"@);
    assert(e[2].0 == "lavalinkLoad"@);
    lemma_lookup_first(e, 0);
    lemma_lookup_first(e, 1);
    lemma_lookup_first(e, 2);
    lemma_json_number(c.cores as int, 0, u32::MAX as int);
}

/// Frame figures written as JSON read back the same.
pub proof fn law_frame_stats_roundtrip(f: FrameStats)
    ensures
        frame_stats_from_json(frame_stats_json(f)) == Some(f),
{
    let e = match frame_stats_json(f) { Json::Object(x) => x, _ => Seq::empty() };
    reveal_strlit("sent");
    reveal_strlit("nulled");
    reveal_strlit("deficit");
    assert(e[0].0 == "sent"@);
    assert(e[1].0 == "nulled"@);
    assert(e[2].0 == "deficit"@);
    lemma_lookup_first(e, 0);
    lemma_lookup_first(e, 1);
    lemma_lookup_first(e, 2);
    lemma_json_number(f.sent as int, i64::MIN as int, i64::MAX as int);
    lemma_json_number(f.nulled as int, i64::MIN as int, i64::MAX as int);
    lemma_json_number(f.deficit as int, i64::MIN as int, i64::MAX as int);
}

/// An end reason written as JSON reads back the same.
pub proof fn law_track_end_reason_roundtrip(r: TrackEndReason)
    ensures
        track_end_reason_from_json(track_end_reason_json(r)) == Some(r),
{
    reveal_strlit("finished");
    reveal_strlit("FINISHED");
    reveal_strlit("loadFailed");
    reveal_strlit("LOAD_FAILED");
    reveal_strlit("stopped");
    reveal_strlit("STOPPED");
    reveal_strlit("replaced");
    reveal_strlit("REPLACED");
    reveal_strlit("cleanup");
    reveal_strlit("CLEANUP");
    assert("loadFailed"@.len() != "finished"@.len());
    assert("loadFailed"@.len() != "FINISHED"@.len());
    assert("stopped"@.len() != "finished"@.len());
    assert("stopped"@.len() != "FINISHED"@.len());
    assert("stopped"@.len() != "loadFailed"@.len());
    assert("stopped"@.len() != "LOAD_FAILED"@.len());
    assert("replaced"@[0] != "finished"@[0]);
    assert("replaced"@[0] != "FINISHED"@[0]);
    assert("replaced"@.len() != "loadFailed"@.len());
    assert("replaced"@.len() != "LOAD_FAILED"@.len());
    assert("replaced"@.len() != "stopped"@.len());
    assert("replaced"@.len() != "STOPPED"@.len());
    assert("cleanup"@.len() != "finished"@.len());
    assert("cleanup"@.len() != "FINISHED"@.len());
    assert("cleanup"@.len() != "loadFailed"@.len());
    assert("cleanup"@.len() != "LOAD_FAILED"@.len());
    assert("cleanup"@[0] != "stopped"@[0]);
    assert("cleanup"@[0] != "STOPPED"@[0]);
    assert("cleanup"@.len() != "replaced"@.len());
    assert("cleanup"@.len() != "REPLACED"@.len());
}

/// An event's track written as JSON reads back the same, with or without its info.
pub proof fn law_event_track_roundtrip(t: EventTrackView)
    ensures
        event_track_from_json(event_track_json(t)) == Some(t),
{
    let e = match event_track_json(t) { Json::Object(x) => x, _ => Seq::empty() };
    reveal_strlit("encoded");
    reveal_strlit("info");
    assert(e[0].0 == "encoded"@);
    assert(e[1].0 == "info"@);
    lemma_lookup_first(e, 0);
    lemma_lookup_first(e, 1);
    if let Some(i) = t.info {
        law_track_info_roundtrip(i);
    }
}

/// A `ready` message reads back the same.
proof fn lemma_ready_message(m: ServerMessageView)
    ensures
        m is Ready ==> server_message_from_json(server_message_json(m)) == Some(m),
{
    if let ServerMessageView::Ready(r) = m {
        reveal_strlit("ready");
        reveal_strlit("playerUpdate");
        reveal_strlit("stats");
        reveal_strlit("event");
        assert("ready"@[0] != "stats"@[0]);
        assert("ready"@[0] != "event"@[0]);
        assert("stats"@[0] != "event"@[0]);
        assert("ready"@.len() != "playerUpdate"@.len());
        assert("stats"@.len() != "playerUpdate"@.len());
        assert("event"@.len() != "playerUpdate"@.len());
        let e = match server_message_json(m) { Json::Object(x) => x, _ => Seq::empty() };
        reveal_strlit("op");
        reveal_strlit("resumed");
        reveal_strlit("sessionId");
        assert(e[0].0 == "op"@);
        assert(e[1].0 == "resumed"@);
        assert(e[2].0 == "sessionId"@);
        lemma_lookup_first(e, 0);
        lemma_lookup_first(e, 1);
        lemma_lookup_first(e, 2);
    }
}

/// A `playerUpdate` message reads back the same.
proof fn lemma_player_update_message(m: ServerMessageView)
    ensures
        m is PlayerUpdate ==> server_message_from_json(server_message_json(m)) == Some(m),
{
    if let ServerMessageView::PlayerUpdate(p) = m {
        reveal_strlit("ready");
        reveal_strlit("playerUpdate");
        reveal_strlit("stats");
        reveal_strlit("event");
        assert("ready"@[0] != "stats"@[0]);
        assert("ready"@[0] != "event"@[0]);
        assert("stats"@[0] != "event"@[0]);
        assert("ready"@.len() != "playerUpdate"@.len());
        assert("stats"@.len() != "playerUpdate"@.len());
        assert("event"@.len() != "playerUpdate"@.len());
        let e = match server_message_json(m) { Json::Object(x) => x, _ => Seq::empty() };
        reveal_strlit("op");
        reveal_strlit("guildId");
        reveal_strlit("state");
        assert(e[0].0 == "op"@);
        assert(e[1].0 == "guildId"@);
        assert(e[2].0 == "state"@);
        lemma_lookup_first(e, 0);
        lemma_lookup_first(e, 1);
        lemma_lookup_first(e, 2);
        law_player_state_roundtrip(p.state);
    }
}

/// A `stats` message reads back the same, with or without frame figures.
proof fn lemma_stats_message(m: ServerMessageView)
    ensures
        m is Stats && loads_as_read(m->Stats_0.cpu) ==> server_message_from_json(server_message_json(m)) == Some(m),
{
    if let ServerMessageView::Stats(s) = m {
        reveal_strlit("ready");
        reveal_strlit("playerUpdate");
        reveal_strlit("stats");
        reveal_strlit("event");
        assert("ready"@[0] != "stats"@[0]);
        assert("ready"@[0] != "event"@[0]);
        assert("stats"@[0] != "event"@[0]);
        assert("ready"@.len() != "playerUpdate"@.len());
        assert("stats"@.len() != "playerUpdate"@.len());
        assert("event"@.len() != "playerUpdate"@.len());
        let e = match server_message_json(m) { Json::Object(x) => x, _ => Seq::empty() };
        reveal_strlit("op");
        reveal_strlit("players");
        reveal_strlit("playingPlayers");
        reveal_strlit("uptime");
        reveal_strlit("memory");
        reveal_strlit("cpu");
        reveal_strlit("frameStats");
        assert("uptime"@[0] != "memory"@[0]);
        assert(e[0].0 == "op"@);
        assert(e[1].0 == "players"@);
        assert(e[2].0 == "playingPlayers"@);
        assert(e[3].0 == "uptime"@);
        assert(e[4].0 == "memory"@);
        assert(e[5].0 == "cpu"@);
        assert(e[6].0 == "frameStats"@);
        lemma_lookup_first(e, 0);
        lemma_lookup_first(e, 1);
        lemma_lookup_first(e, 2);
        lemma_lookup_first(e, 3);
        lemma_lookup_first(e, 4);
        lemma_lookup_first(e, 5);
        lemma_lookup_first(e, 6);
        lemma_json_number(s.players as int, 0, u32::MAX as int);
        lemma_json_number(s.playing_players as int, 0, u32::MAX as int);
        lemma_json_number(s.uptime as int, 0, u64::MAX as int);
        law_memory_roundtrip(s.memory);
        if loads_as_read(s.cpu) {
            law_cpu_roundtrip(s.cpu);
        }
        if let Some(f) = s.frame_stats {
            law_frame_stats_roundtrip(f);
        }
    }
}

/// A `TrackStartEvent` event message reads back the same.
proof fn lemma_track_start_event_message(m: ServerMessageView)
    ensures
        m matches ServerMessageView::Event(EventView::TrackStartEvent { .. }) ==> server_message_from_json(server_message_json(m)) == Some(m),
{
    if let ServerMessageView::Event(ev) = m {
        if let EventView::TrackStartEvent { guild_id, track } = ev {
            reveal_strlit("ready");
            reveal_strlit("playerUpdate");
            reveal_strlit("stats");
            reveal_strlit("event");
            assert("ready"@[0] != "stats"@[0]);
            assert("ready"@[0] != "event"@[0]);
            assert("stats"@[0] != "event"@[0]);
            assert("ready"@.len() != "playerUpdate"@.len());
            assert("stats"@.len() != "playerUpdate"@.len());
            assert("event"@.len() != "playerUpdate"@.len());
            reveal_strlit("TrackStartEvent");
            reveal_strlit("TrackEndEvent");
            reveal_strlit("TrackExceptionEvent");
            reveal_strlit("TrackStuckEvent");
            reveal_strlit("WebSocketClosedEvent");
            assert("TrackStartEvent"@[7] != "TrackStuckEvent"@[7]);
            assert("TrackStartEvent"@.len() != "TrackEndEvent"@.len());
            assert("TrackStartEvent"@.len() != "TrackExceptionEvent"@.len());
            assert("TrackStartEvent"@.len() != "WebSocketClosedEvent"@.len());
            assert("TrackEndEvent"@.len() != "TrackExceptionEvent"@.len());
            assert("TrackEndEvent"@.len() != "TrackStuckEvent"@.len());
            assert("TrackEndEvent"@.len() != "WebSocketClosedEvent"@.len());
            assert("TrackExceptionEvent"@.len() != "TrackStuckEvent"@.len());
            assert("TrackExceptionEvent"@.len() != "WebSocketClosedEvent"@.len());
            assert("TrackStuckEvent"@.len() != "WebSocketClosedEvent"@.len());
            let e = match server_message_json(m) { Json::Object(x) => x, _ => Seq::empty() };
            reveal_strlit("op");
            reveal_strlit("type");
            reveal_strlit("guildId");
            reveal_strlit("track");
            assert(e[0].0 == "op"@);
            assert(e[1].0 == "type"@);
            assert(e[2].0 == "guildId"@);
            assert(e[3].0 == "track"@);
            lemma_lookup_first(e, 0);
            lemma_lookup_first(e, 1);
            lemma_lookup_first(e, 2);
            lemma_lookup_first(e, 3);
            law_event_track_roundtrip(track);
        }
    }
}

/// A `TrackEndEvent` event message reads back the same.
proof fn lemma_track_end_event_message(m: ServerMessageView)
    ensures
        m matches ServerMessageView::Event(EventView::TrackEndEvent { .. }) ==> server_message_from_json(server_message_json(m)) == Some(m),
{
    if let ServerMessageView::Event(ev) = m {
        if let EventView::TrackEndEvent { guild_id, track, reason } = ev {
            reveal_strlit("ready");
            reveal_strlit("playerUpdate");
            reveal_strlit("stats");
            reveal_strlit("event");
            assert("ready"@[0] != "stats"@[0]);
            assert("ready"@[0] != "event"@[0]);
            assert("stats"@[0] != "event"@[0]);
            assert("ready"@.len() != "playerUpdate"@.len());
            assert("stats"@.len() != "playerUpdate"@.len());
            assert("event"@.len() != "playerUpdate"@.len());
            reveal_strlit("TrackStartEvent");
            reveal_strlit("TrackEndEvent");
            reveal_strlit("TrackExceptionEvent");
            reveal_strlit("TrackStuckEvent");
            reveal_strlit("WebSocketClosedEvent");
            assert("TrackStartEvent"@[7] != "TrackStuckEvent"@[7]);
            assert("TrackStartEvent"@.len() != "TrackEndEvent"@.len());
            assert("TrackStartEvent"@.len() != "TrackExceptionEvent"@.len());
            assert("TrackStartEvent"@.len() != "WebSocketClosedEvent"@.len());
            assert("TrackEndEvent"@.len() != "TrackExceptionEvent"@.len());
            assert("TrackEndEvent"@.len() != "TrackStuckEvent"@.len());
            assert("TrackEndEvent"@.len() != "WebSocketClosedEvent"@.len());
            assert("TrackExceptionEvent"@.len() != "TrackStuckEvent"@.len());
            assert("TrackExceptionEvent"@.len() != "WebSocketClosedEvent"@.len());
            assert("TrackStuckEvent"@.len() != "WebSocketClosedEvent"@.len());
            let e = match server_message_json(m) { Json::Object(x) => x, _ => Seq::empty() };
            reveal_strlit("op");
            reveal_strlit("type");
            reveal_strlit("guildId");
            reveal_strlit("track");
            reveal_strlit("reason");
            assert(e[0].0 == "op"@);
            assert(e[1].0 == "type"@);
            assert(e[2].0 == "guildId"@);
            assert(e[3].0 == "track"@);
            assert(e[4].0 == "reason"@);
            lemma_lookup_first(e, 0);
            lemma_lookup_first(e, 1);
            lemma_lookup_first(e, 2);
            lemma_lookup_first(e, 3);
            lemma_lookup_first(e, 4);
            law_event_track_roundtrip(track);
            law_track_end_reason_roundtrip(reason);
        }
    }
}

/// A `TrackExceptionEvent` event message reads back the same.
proof fn lemma_track_exception_event_message(m: ServerMessageView)
    ensures
        m matches ServerMessageView::Event(EventView::TrackExceptionEvent { .. }) ==> server_message_from_json(server_message_json(m)) == Some(m),
{
    if let ServerMessageView::Event(ev) = m {
        if let EventView::TrackExceptionEvent { guild_id, track, exception } = ev {
            reveal_strlit("ready");
            reveal_strlit("playerUpdate");
            reveal_strlit("stats");
            reveal_strlit("event");
            assert("ready"@[0] != "stats"@[0]);
            assert("ready"@[0] != "event"@[0]);
            assert("stats"@[0] != "event"@[0]);
            assert("ready"@.len() != "playerUpdate"@.len());
            assert("stats"@.len() != "playerUpdate"@.len());
            assert("event"@.len() != "playerUpdate"@.len());
            reveal_strlit("TrackStartEvent");
            reveal_strlit("TrackEndEvent");
            reveal_strlit("TrackExceptionEvent");
            reveal_strlit("TrackStuckEvent");
            reveal_strlit("WebSocketClosedEvent");
            assert("TrackStartEvent"@[7] != "TrackStuckEvent"@[7]);
            assert("TrackStartEvent"@.len() != "TrackEndEvent"@.len());
            assert("TrackStartEvent"@.len() != "TrackExceptionEvent"@.len());
            assert("TrackStartEvent"@.len() != "WebSocketClosedEvent"@.len());
            assert("TrackEndEvent"@.len() != "TrackExceptionEvent"@.len());
            assert("TrackEndEvent"@.len() != "TrackStuckEvent"@.len());
            assert("TrackEndEvent"@.len() != "WebSocketClosedEvent"@.len());
            assert("TrackExceptionEvent"@.len() != "TrackStuckEvent"@.len());
            assert("TrackExceptionEvent"@.len() != "WebSocketClosedEvent"@.len());
            assert("TrackStuckEvent"@.len() != "WebSocketClosedEvent"@.len());
            let e = match server_message_json(m) { Json::Object(x) => x, _ => Seq::empty() };
            reveal_strlit("op");
            reveal_strlit("type");
            reveal_strlit("guildId");
            reveal_strlit("track");
            reveal_strlit("exception");
            assert(e[0].0 == "op"@);
            assert(e[1].0 == "type"@);
            assert(e[2].0 == "guildId"@);
            assert(e[3].0 == "track"@);
            assert(e[4].0 == "exception"@);
            lemma_lookup_first(e, 0);
            lemma_lookup_first(e, 1);
            lemma_lookup_first(e, 2);
            lemma_lookup_first(e, 3);
            lemma_lookup_first(e, 4);
            law_event_track_roundtrip(track);
            law_exception_roundtrip(exception);
        }
    }
}

/// A `TrackStuckEvent` event message reads back the same.
proof fn lemma_track_stuck_event_message(m: ServerMessageView)
    ensures
        m matches ServerMessageView::Event(EventView::TrackStuckEvent { .. }) ==> server_message_from_json(server_message_json(m)) == Some(m),
{
    if let ServerMessageView::Event(ev) = m {
        if let EventView::TrackStuckEvent { guild_id, track, threshold_ms } = ev {
            reveal_strlit("ready");
            reveal_strlit("playerUpdate");
            reveal_strlit("stats");
            reveal_strlit("event");
            assert("ready"@[0] != "stats"@[0]);
            assert("ready"@[0] != "event"@[0]);
            assert("stats"@[0] != "event"@[0]);
            assert("ready"@.len() != "playerUpdate"@.len());
            assert("stats"@.len() != "playerUpdate"@.len());
            assert("event"@.len() != "playerUpdate"@.len());
            reveal_strlit("TrackStartEvent");
            reveal_strlit("TrackEndEvent");
            reveal_strlit("TrackExceptionEvent");
            reveal_strlit("TrackStuckEvent");
            reveal_strlit("WebSocketClosedEvent");
            assert("TrackStartEvent"@[7] != "TrackStuckEvent"@[7]);
            assert("TrackStartEvent"@.len() != "TrackEndEvent"@.len());
            assert("TrackStartEvent"@.len() != "TrackExceptionEvent"@.len());
            assert("TrackStartEvent"@.len() != "WebSocketClosedEvent"@.len());
            assert("TrackEndEvent"@.len() != "TrackExceptionEvent"@.len());
            assert("TrackEndEvent"@.len() != "TrackStuckEvent"@.len());
            assert("TrackEndEvent"@.len() != "WebSocketClosedEvent"@.len());
            assert("TrackExceptionEvent"@.len() != "TrackStuckEvent"@.len());
            assert("TrackExceptionEvent"@.len() != "WebSocketClosedEvent"@.len());
            assert("TrackStuckEvent"@.len() != "WebSocketClosedEvent"@.len());
            let e = match server_message_json(m) { Json::Object(x) => x, _ => Seq::empty() };
            reveal_strlit("op");
            reveal_strlit("type");
            reveal_strlit("guildId");
            reveal_strlit("track");
            reveal_strlit("thresholdMs");
            assert(e[0].0 == "op"@);
            assert(e[1].0 == "type"@);
            assert(e[2].0 == "guildId"@);
            assert(e[3].0 == "track"@);
            assert(e[4].0 == "thresholdMs"@);
            lemma_lookup_first(e, 0);
            lemma_lookup_first(e, 1);
            lemma_lookup_first(e, 2);
            lemma_lookup_first(e, 3);
            lemma_lookup_first(e, 4);
            law_event_track_roundtrip(track);
            lemma_json_number(threshold_ms as int, 0, u64::MAX as int);
        }
    }
}

/// A `WebSocketClosedEvent` event message reads back the same.
proof fn lemma_web_socket_closed_event_message(m: ServerMessageView)
    ensures
        m matches ServerMessageView::Event(EventView::WebSocketClosedEvent { .. }) ==> server_message_from_json(server_message_json(m)) == Some(m),
{
    if let ServerMessageView::Event(ev) = m {
        if let EventView::WebSocketClosedEvent { guild_id, code, reason, by_remote } = ev {
            reveal_strlit("ready");
            reveal_strlit("playerUpdate");
            reveal_strlit("stats");
            reveal_strlit("event");
            assert("ready"@[0] != "stats"@[0]);
            assert("ready"@[0] != "event"@[0]);
            assert("stats"@[0] != "event"@[0]);
            assert("ready"@.len() != "playerUpdate"@.len());
            assert("stats"@.len() != "playerUpdate"@.len());
            assert("event"@.len() != "playerUpdate"@.len());
            reveal_strlit("TrackStartEvent");
            reveal_strlit("TrackEndEvent");
            reveal_strlit("TrackExceptionEvent");
            reveal_strlit("TrackStuckEvent");
            reveal_strlit("WebSocketClosedEvent");
            assert("TrackStartEvent"@[7] != "TrackStuckEvent"@[7]);
            assert("TrackStartEvent"@.len() != "TrackEndEvent"@.len());
            assert("TrackStartEvent"@.len() != "TrackExceptionEvent"@.len());
            assert("TrackStartEvent"@.len() != "WebSocketClosedEvent"@.len());
            assert("TrackEndEvent"@.len() != "TrackExceptionEvent"@.len());
            assert("TrackEndEvent"@.len() != "TrackStuckEvent"@.len());
            assert("TrackEndEvent"@.len() != "WebSocketClosedEvent"@.len());
            assert("TrackExceptionEvent"@.len() != "TrackStuckEvent"@.len());
            assert("TrackExceptionEvent"@.len() != "WebSocketClosedEvent"@.len());
            assert("TrackStuckEvent"@.len() != "WebSocketClosedEvent"@.len());
            let e = match server_message_json(m) { Json::Object(x) => x, _ => Seq::empty() };
            reveal_strlit("op");
            reveal_strlit("type");
            reveal_strlit("guildId");
            reveal_strlit("code");
            reveal_strlit("reason");
            reveal_strlit("byRemote");
            assert("type"@[0] != "code"@[0]);
            assert(e[0].0 == "op"@);
            assert(e[1].0 == "type"@);
            assert(e[2].0 == "guildId"@);
            assert(e[3].0 == "code"@);
            assert(e[4].0 == "reason"@);
            assert(e[5].0 == "byRemote"@);
            lemma_lookup_first(e, 0);
            lemma_lookup_first(e, 1);
            lemma_lookup_first(e, 2);
            lemma_lookup_first(e, 3);
            lemma_lookup_first(e, 4);
            lemma_lookup_first(e, 5);
            lemma_json_number(code as int, i32::MIN as int, i32::MAX as int);
        }
    }
}

/// A message of the node, written in the v4 wire format, reads back as the
/// same message (CPU loads in the form that reading gives them): the one
/// shape that v3 messages are normalized to and that v4 messages arrive in
/// is read by one decoder without loss.
pub proof fn law_server_message_roundtrip(m: ServerMessageView)
    requires
        m is Stats ==> loads_as_read(m->Stats_0.cpu),
    ensures
        server_message_from_json(server_message_json(m)) == Some(m),
{
    lemma_ready_message(m);
    lemma_player_update_message(m);
    lemma_stats_message(m);
    lemma_track_start_event_message(m);
    lemma_track_end_event_message(m);
    lemma_track_exception_event_message(m);
    lemma_track_stuck_event_message(m);
    lemma_web_socket_closed_event_message(m);
}

} // verus!
