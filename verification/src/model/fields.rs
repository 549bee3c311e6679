//! What reading a model from its JSON form takes from where: each field
//! from the member of its own name, and each v3 name of an enumeration to
//! the same value as its v4 name.

use vstd::prelude::*;

use crate::codec::{any_or_null, def_bool, def_int, opt_str, req_bool, req_int, req_str};
use crate::json::{field, Json};
use crate::model::events::{player_update_from_json, server_message_from_json, PlayerUpdateView, ServerMessageView, event_from_json, event_track_from_json, ready_from_json, track_end_reason_from_json, EventTrackView, EventView, ReadyView, TrackEndReason};
use crate::model::load::{load_result_from_json, LoadResultView, exception_from_json, playlist_from_json, playlist_info_from_json, severity_from_json, ExceptionView, PlaylistInfoView, PlaylistView, Severity};
use crate::model::player::{player_from_json, player_state_from_json, voice_state_from_json, PlayerState, PlayerView, VoiceStateView};
use crate::model::stats::{cpu_from_json, frame_stats_from_json, load_text, memory_from_json, req_number, stats_from_json, CpuView, FrameStats, Memory, StatsView};
use crate::model::track::{track_from_json, track_info_from_json, tracks_from_json, TrackInfoView, TrackView};

verus! {

/// Reading track info takes each field from the member of its own name.
pub proof fn law_track_info_reads_its_members(j: Json, v: TrackInfoView)
    requires
        track_info_from_json(j) == Some(v),
    ensures
        v.identifier == req_str(j, "identifier"@)->0,
        v.is_seekable == req_bool(j, "isSeekable"@)->0,
        v.author == req_str(j, "author"@)->0,
        v.length as int == req_int(j, "length"@, 0, u64::MAX as int)->0,
        v.is_stream == req_bool(j, "isStream"@)->0,
        v.position as int == req_int(j, "position"@, 0, u64::MAX as int)->0,
        v.title == req_str(j, "title"@)->0,
        v.uri == opt_str(j, "uri"@)->0,
        v.artwork_url == opt_str(j, "artworkUrl"@)->0,
        v.isrc == opt_str(j, "isrc"@)->0,
        v.source_name == req_str(j, "sourceName"@)->0,
{
}

/// Reading a track takes the encoded string from `encoded`, the info from `info`, and the plugin and user data from `pluginInfo` and `userData`.
pub proof fn law_track_reads_its_members(j: Json, v: TrackView)
    requires
        track_from_json(j) == Some(v),
    ensures
        v.encoded == req_str(j, "encoded"@)->0,
        track_info_from_json(field(j, "info"@)->0) == Some(v.info),
        v.plugin_info == any_or_null(j, "pluginInfo"@),
        v.user_data == any_or_null(j, "userData"@),
{
}

/// Reading an exception takes each field from the member of its own name.
pub proof fn law_exception_reads_its_members(j: Json, v: ExceptionView)
    requires
        exception_from_json(j) == Some(v),
    ensures
        v.message == opt_str(j, "message"@)->0,
        severity_from_json(field(j, "severity"@)->0) == Some(v.severity),
        v.cause == opt_str(j, "cause"@)->0,
        v.cause_stack_trace == opt_str(j, "causeStackTrace"@)->0,
{
}

/// Reading playlist info takes the name from `name` and the selected track from `selectedTrack`.
pub proof fn law_playlist_info_reads_its_members(j: Json, v: PlaylistInfoView)
    requires
        playlist_info_from_json(j) == Some(v),
    ensures
        v.name == req_str(j, "name"@)->0,
        v.selected_track as int == req_int(j, "selectedTrack"@, i32::MIN as int, i32::MAX as int)->0,
{
}

/// Reading a playlist takes its info from `info`, its tracks from `tracks` and its plugin data from `pluginInfo`.
pub proof fn law_playlist_reads_its_members(j: Json, v: PlaylistView)
    requires
        playlist_from_json(j) == Some(v),
    ensures
        playlist_info_from_json(field(j, "info"@)->0) == Some(v.info),
        tracks_from_json(field(j, "tracks"@)->0) == Some(v.tracks),
        v.plugin_info == any_or_null(j, "pluginInfo"@),
{
}

/// Reading a player state takes each field from the member of its own name; `connected` is `false` and `ping` is -1 when absent.
pub proof fn law_player_state_reads_its_members(j: Json, v: PlayerState)
    requires
        player_state_from_json(j) == Some(v),
    ensures
        v.time as int == req_int(j, "time"@, i64::MIN as int, i64::MAX as int)->0,
        v.position as int == req_int(j, "position"@, i64::MIN as int, i64::MAX as int)->0,
        v.connected == def_bool(j, "connected"@)->0,
        v.ping as int == def_int(j, "ping"@, i64::MIN as int, i64::MAX as int, -1)->0,
        field(j, "connected"@) is None ==> !v.connected,
        field(j, "ping"@) is None ==> v.ping == -1,
{
}

/// Reading a voice state takes each field from the member of its own name.
pub proof fn law_voice_state_reads_its_members(j: Json, v: VoiceStateView)
    requires
        voice_state_from_json(j) == Some(v),
    ensures
        v.token == req_str(j, "token"@)->0,
        v.endpoint == req_str(j, "endpoint"@)->0,
        v.session_id == req_str(j, "sessionId"@)->0,
        v.channel_id == opt_str(j, "channelId"@)->0,
{
}

/// Reading memory figures takes each from the member of its own name.
pub proof fn law_memory_reads_its_members(j: Json, v: Memory)
    requires
        memory_from_json(j) == Some(v),
    ensures
        v.free as int == req_int(j, "free"@, 0, u64::MAX as int)->0,
        v.used as int == req_int(j, "used"@, 0, u64::MAX as int)->0,
        v.allocated as int == req_int(j, "allocated"@, 0, u64::MAX as int)->0,
        v.reservable as int == req_int(j, "reservable"@, 0, u64::MAX as int)->0,
{
}

/// Reading CPU figures takes each from the member of its own name, a load in its written form.
pub proof fn law_cpu_reads_its_members(j: Json, v: CpuView)
    requires
        cpu_from_json(j) == Some(v),
    ensures
        v.cores as int == req_int(j, "cores"@, 0, u32::MAX as int)->0,
        v.system_load == load_text(req_number(j, "systemLoad"@)->0),
        v.lavalink_load == load_text(req_number(j, "lavalinkLoad"@)->0),
{
}

/// Reading frame figures takes each from the member of its own name.
pub proof fn law_frame_stats_reads_its_members(j: Json, v: FrameStats)
    requires
        frame_stats_from_json(j) == Some(v),
    ensures
        v.sent as int == req_int(j, "sent"@, i64::MIN as int, i64::MAX as int)->0,
        v.nulled as int == req_int(j, "nulled"@, i64::MIN as int, i64::MAX as int)->0,
        v.deficit as int == req_int(j, "deficit"@, i64::MIN as int, i64::MAX as int)->0,
{
}

/// Reading a player takes each field from the member of its own name; `filters` is `null` when absent.
pub proof fn law_player_reads_its_members(j: Json, v: PlayerView)
    requires
        player_from_json(j) == Some(v),
    ensures
        v.guild_id == req_str(j, "guildId"@)->0,
        v.volume as int == req_int(j, "volume"@, i32::MIN as int, i32::MAX as int)->0,
        v.paused == req_bool(j, "paused"@)->0,
        player_state_from_json(field(j, "state"@)->0) == Some(v.state),
        voice_state_from_json(field(j, "voice"@)->0) == Some(v.voice),
        v.filters == any_or_null(j, "filters"@),
        v.track is None <==> (field(j, "track"@) is None || field(j, "track"@) == Some(Json::Null)),
        v.track matches Some(t) ==> track_from_json(field(j, "track"@)->0) == Some(t),
{
}

/// Reading `ready` takes `resumed` and `sessionId` from their members.
pub proof fn law_ready_reads_its_members(j: Json, v: ReadyView)
    requires
        ready_from_json(j) == Some(v),
    ensures
        v.resumed == req_bool(j, "resumed"@)->0,
        v.session_id == req_str(j, "sessionId"@)->0,
{
}

/// Reading an event's track takes the encoded string from `encoded` and the info from `info`, absent or `null` giving none.
pub proof fn law_event_track_reads_its_members(j: Json, v: EventTrackView)
    requires
        event_track_from_json(j) == Some(v),
    ensures
        v.encoded == req_str(j, "encoded"@)->0,
        v.info is None <==> (field(j, "info"@) is None || field(j, "info"@) == Some(Json::Null)),
        v.info matches Some(i) ==> track_info_from_json(field(j, "info"@)->0) == Some(i),
{
}

/// Each end reason reads from its camelCase name (v4) and from its uppercase name (v3) alike.
pub proof fn law_track_end_reason_names()
    ensures
        track_end_reason_from_json(Json::Str("finished"@)) == Some(TrackEndReason::Finished),
        track_end_reason_from_json(Json::Str("FINISHED"@)) == Some(TrackEndReason::Finished),
        track_end_reason_from_json(Json::Str("loadFailed"@)) == Some(TrackEndReason::LoadFailed),
        track_end_reason_from_json(Json::Str("LOAD_FAILED"@)) == Some(TrackEndReason::LoadFailed),
        track_end_reason_from_json(Json::Str("stopped"@)) == Some(TrackEndReason::Stopped),
        track_end_reason_from_json(Json::Str("STOPPED"@)) == Some(TrackEndReason::Stopped),
        track_end_reason_from_json(Json::Str("replaced"@)) == Some(TrackEndReason::Replaced),
        track_end_reason_from_json(Json::Str("REPLACED"@)) == Some(TrackEndReason::Replaced),
        track_end_reason_from_json(Json::Str("cleanup"@)) == Some(TrackEndReason::Cleanup),
        track_end_reason_from_json(Json::Str("CLEANUP"@)) == Some(TrackEndReason::Cleanup),
{
    reveal_strlit("finished");
    reveal_strlit("FINISHED");
    reveal_strlit("loadFailed");
    reveal_strlit("LOAD_FAILED");
    reveal_strlit("stopped");
    reveal_strlit("STOPPED");
    reveal_strlit("replaced");
    reveal_strlit("REPLACED");
    reveal_strlit("cleanup");
    reveal_strlit("CLEANUP");
    assert("loadFailed"@.len() != "finished"@.len());
    assert("loadFailed"@.len() != "FINISHED"@.len());
    assert("LOAD_FAILED"@.len() != "finished"@.len());
    assert("LOAD_FAILED"@.len() != "FINISHED"@.len());
    assert("stopped"@.len() != "finished"@.len());
    assert("stopped"@.len() != "FINISHED"@.len());
    assert("STOPPED"@.len() != "finished"@.len());
    assert("STOPPED"@.len() != "FINISHED"@.len());
    assert("stopped"@.len() != "loadFailed"@.len());
    assert("stopped"@.len() != "LOAD_FAILED"@.len());
    assert("STOPPED"@.len() != "loadFailed"@.len());
    assert("STOPPED"@.len() != "LOAD_FAILED"@.len());
    assert("replaced"@[0] != "finished"@[0]);
    assert("replaced"@[0] != "FINISHED"@[0]);
    assert("REPLACED"@[0] != "finished"@[0]);
    assert("REPLACED"@[0] != "FINISHED"@[0]);
    assert("replaced"@.len() != "loadFailed"@.len());
    assert("replaced"@.len() != "LOAD_FAILED"@.len());
    assert("REPLACED"@.len() != "loadFailed"@.len());
    assert("REPLACED"@.len() != "LOAD_FAILED"@.len());
    assert("replaced"@.len() != "stopped"@.len());
    assert("replaced"@.len() != "STOPPED"@.len());
    assert("REPLACED"@.len() != "stopped"@.len());
    assert("REPLACED"@.len() != "STOPPED"@.len());
    assert("cleanup"@.len() != "finished"@.len());
    assert("cleanup"@.len() != "FINISHED"@.len());
    assert("CLEANUP"@.len() != "finished"@.len());
    assert("CLEANUP"@.len() != "FINISHED"@.len());
    assert("cleanup"@.len() != "loadFailed"@.len());
    assert("cleanup"@.len() != "LOAD_FAILED"@.len());
    assert("CLEANUP"@.len() != "loadFailed"@.len());
    assert("CLEANUP"@.len() != "LOAD_FAILED"@.len());
    assert("cleanup"@[0] != "stopped"@[0]);
    assert("cleanup"@[0] != "STOPPED"@[0]);
    assert("CLEANUP"@[0] != "stopped"@[0]);
    assert("CLEANUP"@[0] != "STOPPED"@[0]);
    assert("cleanup"@.len() != "replaced"@.len());
    assert("cleanup"@.len() != "REPLACED"@.len());
    assert("CLEANUP"@.len() != "replaced"@.len());
    assert("CLEANUP"@.len() != "REPLACED"@.len());
}

/// Each severity reads from its lowercase name (v4) and from its uppercase name (v3) alike.
pub proof fn law_severity_names()
    ensures
        severity_from_json(Json::Str("common"@)) == Some(Severity::Common),
        severity_from_json(Json::Str("COMMON"@)) == Some(Severity::Common),
        severity_from_json(Json::Str("suspicious"@)) == Some(Severity::Suspicious),
        severity_from_json(Json::Str("SUSPICIOUS"@)) == Some(Severity::Suspicious),
        severity_from_json(Json::Str("fault"@)) == Some(Severity::Fault),
        severity_from_json(Json::Str("FAULT"@)) == Some(Severity::Fault),
{
    reveal_strlit("common");
    reveal_strlit("COMMON");
    reveal_strlit("suspicious");
    reveal_strlit("SUSPICIOUS");
    reveal_strlit("fault");
    reveal_strlit("FAULT");
    assert("suspicious"@.len() != "common"@.len());
    assert("suspicious"@.len() != "COMMON"@.len());
    assert("SUSPICIOUS"@.len() != "common"@.len());
    assert("SUSPICIOUS"@.len() != "COMMON"@.len());
    assert("fault"@.len() != "common"@.len());
    assert("fault"@.len() != "COMMON"@.len());
    assert("FAULT"@.len() != "common"@.len());
    assert("FAULT"@.len() != "COMMON"@.len());
    assert("fault"@.len() != "suspicious"@.len());
    assert("fault"@.len() != "SUSPICIOUS"@.len());
    assert("FAULT"@.len() != "suspicious"@.len());
    assert("FAULT"@.len() != "SUSPICIOUS"@.len());
}

/// Reading node stats takes each figure from the member of its own name;
/// `frameStats` absent or `null` gives none.
pub proof fn law_stats_reads_its_members(j: Json, v: StatsView)
    requires
        stats_from_json(j) == Some(v),
    ensures
        v.players as int == req_int(j, "players"@, 0, u32::MAX as int)->0,
        v.playing_players as int == req_int(j, "playingPlayers"@, 0, u32::MAX as int)->0,
        v.uptime as int == req_int(j, "uptime"@, 0, u64::MAX as int)->0,
        memory_from_json(field(j, "memory"@)->0) == Some(v.memory),
        cpu_from_json(field(j, "cpu"@)->0) == Some(v.cpu),
        v.frame_stats is None <==> (field(j, "frameStats"@) is None || field(j, "frameStats"@) == Some(Json::Null)),
        v.frame_stats matches Some(f) ==> frame_stats_from_json(field(j, "frameStats"@)->0) == Some(f),
{
}

/// Reading an event takes its kind from `type`, the guild from `guildId`,
/// and each other field from the member of its own name.
pub proof fn law_event_reads_its_members(j: Json, e: EventView)
    requires
        event_from_json(j) == Some(e),
    ensures
        e matches EventView::TrackStartEvent { guild_id, track } ==> req_str(j, "type"@)->0 == "TrackStartEvent"@
            && guild_id == req_str(j, "guildId"@)->0 && event_track_from_json(field(j, "track"@)->0) == Some(track),
        e matches EventView::TrackEndEvent { guild_id, track, reason } ==> req_str(j, "type"@)->0 == "TrackEndEvent"@
            && guild_id == req_str(j, "guildId"@)->0 && event_track_from_json(field(j, "track"@)->0) == Some(track)
            && track_end_reason_from_json(field(j, "reason"@)->0) == Some(reason),
        e matches EventView::TrackExceptionEvent { guild_id, track, exception } ==> req_str(j, "type"@)->0 == "TrackExceptionEvent"@
            && guild_id == req_str(j, "guildId"@)->0 && event_track_from_json(field(j, "track"@)->0) == Some(track)
            && exception_from_json(field(j, "exception"@)->0) == Some(exception),
        e matches EventView::TrackStuckEvent { guild_id, track, threshold_ms } ==> req_str(j, "type"@)->0 == "TrackStuckEvent"@
            && guild_id == req_str(j, "guildId"@)->0 && event_track_from_json(field(j, "track"@)->0) == Some(track)
            && threshold_ms as int == req_int(j, "thresholdMs"@, 0, u64::MAX as int)->0,
        e matches EventView::WebSocketClosedEvent { guild_id, code, reason, by_remote } ==> req_str(j, "type"@)->0 == "WebSocketClosedEvent"@
            && guild_id == req_str(j, "guildId"@)->0 && code as int == req_int(j, "code"@, i32::MIN as int, i32::MAX as int)->0
            && reason == req_str(j, "reason"@)->0 && by_remote == req_bool(j, "byRemote"@)->0,
{
}

/// Reading a player update takes the guild from `guildId` and the state
/// from `state`.
pub proof fn law_player_update_reads_its_members(j: Json, v: PlayerUpdateView)
    requires
        player_update_from_json(j) == Some(v),
    ensures
        v.guild_id == req_str(j, "guildId"@)->0,
        player_state_from_json(field(j, "state"@)->0) == Some(v.state),
{
}

/// Reading a load result goes by `loadType` and takes the content from
/// `data`: a track for `track`, a playlist for `playlist`, a list of tracks
/// for `search`, an exception for `error`, and nothing (`data` absent or
/// `null`) for `empty`.
pub proof fn law_load_result_reads_its_members(j: Json, r: LoadResultView)
    requires
        load_result_from_json(j) == Some(r),
    ensures
        r matches LoadResultView::Track(t) ==> req_str(j, "loadType"@) == Some("track"@)
            && track_from_json(field(j, "data"@)->0) == Some(t),
        r matches LoadResultView::Playlist(p) ==> req_str(j, "loadType"@) == Some("playlist"@)
            && playlist_from_json(field(j, "data"@)->0) == Some(p),
        r matches LoadResultView::Search(ts) ==> req_str(j, "loadType"@) == Some("search"@)
            && tracks_from_json(field(j, "data"@)->0) == Some(ts),
        r is Empty ==> req_str(j, "loadType"@) == Some("empty"@)
            && (field(j, "data"@) is None || field(j, "data"@) == Some(Json::Null)),
        r matches LoadResultView::Error(x) ==> req_str(j, "loadType"@) == Some("error"@)
            && exception_from_json(field(j, "data"@)->0) == Some(x),
{
}

/// Reading a server message goes by `op`: `ready`, `playerUpdate`, `stats`
/// and `event` each read the message's other members as that kind.
pub proof fn law_server_message_reads_its_members(j: Json, m: ServerMessageView)
    requires
        server_message_from_json(j) == Some(m),
    ensures
        m matches ServerMessageView::Ready(r) ==> req_str(j, "op"@) == Some("ready"@) && ready_from_json(j) == Some(r),
        m matches ServerMessageView::PlayerUpdate(p) ==> req_str(j, "op"@) == Some("playerUpdate"@) && player_update_from_json(j) == Some(p),
        m matches ServerMessageView::Stats(st) ==> req_str(j, "op"@) == Some("stats"@) && stats_from_json(j) == Some(st),
        m matches ServerMessageView::Event(e) ==> req_str(j, "op"@) == Some("event"@) && event_from_json(j) == Some(e),
{
}

} // verus!
