//! Player and voice-state models.

use vstd::prelude::*;

use crate::codec::{any_or_null, def_bool, def_int, entry, opt_str, opt_view, read_any_or_null, read_def_bool, read_def_int, read_opt_str, read_req_bool, read_req_int, read_req_str, req_bool, req_int, req_str};
use crate::json::{entries_model, field, json_number, object, Json, JsonValue};
use crate::model::track::{track_from_json, track_json, Track, TrackView};
use crate::text::string_of;

verus! {

/// A player as returned by the REST API.
#[derive(Debug)]
pub struct Player {
    pub guild_id: String,
    pub track: Option<Track>,
    pub volume: i32,
    pub paused: bool,
    pub state: PlayerState,
    pub voice: VoiceState,
    /// The filters in effect, `null` when absent.
    pub filters: JsonValue,
}

#[derive(Clone, Copy, PartialEq, Eq, Structural, Debug)]
pub struct PlayerState {
    /// Unix timestamp (ms) the state was generated.
    pub time: i64,
    /// Position of the track in ms.
    pub position: i64,
    /// Present on v4 and v3.4+; `false` when absent.
    pub connected: bool,
    /// Voice-gateway ping in ms, or -1 if not connected; -1 when absent.
    pub ping: i64,
}

/// Voice connection info handed to Lavalink (from Discord's
/// VOICE_SERVER_UPDATE and VOICE_STATE_UPDATE). Also returned inside `Player`.
#[derive(Debug)]
pub struct VoiceState {
    pub token: String,
    pub endpoint: String,
    pub session_id: String,
    pub channel_id: Option<String>,
}

/// Request body for `PATCH /v4/sessions/{sid}/players/{guild}`.
/// Every field is optional; only what is set is sent.
#[derive(Debug)]
pub struct UpdatePlayer {
    pub track: Option<UpdatePlayerTrack>,
    pub position: Option<i64>,
    /// `Some(None)` sends `null` (no end time).
    pub end_time: Option<Option<i64>>,
    pub volume: Option<i32>,
    pub paused: Option<bool>,
    pub filters: Option<JsonValue>,
    pub voice: Option<VoiceState>,
}

#[derive(Debug)]
pub struct UpdatePlayerTrack {
    /// `Some(Some(s))` plays `s`; `Some(None)` sends `null` to stop; `None` omits.
    pub encoded: Option<Option<String>>,
    pub identifier: Option<String>,
    pub user_data: Option<JsonValue>,
}

pub struct PlayerView {
    pub guild_id: Seq<char>,
    pub track: Option<TrackView>,
    pub volume: i32,
    pub paused: bool,
    pub state: PlayerState,
    pub voice: VoiceStateView,
    pub filters: Json,
}

pub struct VoiceStateView {
    pub token: Seq<char>,
    pub endpoint: Seq<char>,
    pub session_id: Seq<char>,
    pub channel_id: Option<Seq<char>>,
}

pub struct UpdatePlayerView {
    pub track: Option<UpdatePlayerTrackView>,
    pub position: Option<i64>,
    pub end_time: Option<Option<i64>>,
    pub volume: Option<i32>,
    pub paused: Option<bool>,
    pub filters: Option<Json>,
    pub voice: Option<VoiceStateView>,
}

pub struct UpdatePlayerTrackView {
    pub encoded: Option<Option<Seq<char>>>,
    pub identifier: Option<Seq<char>>,
    pub user_data: Option<Json>,
}

impl View for VoiceState {
    type V = VoiceStateView;

    open spec fn view(&self) -> VoiceStateView {
        VoiceStateView {
            token: self.token@,
            endpoint: self.endpoint@,
            session_id: self.session_id@,
            channel_id: opt_view(self.channel_id),
        }
    }
}

impl View for Player {
    type V = PlayerView;

    open spec fn view(&self) -> PlayerView {
        PlayerView {
            guild_id: self.guild_id@,
            track: opt_view(self.track),
            volume: self.volume,
            paused: self.paused,
            state: self.state,
            voice: self.voice@,
            filters: self.filters@,
        }
    }
}

impl View for UpdatePlayerTrack {
    type V = UpdatePlayerTrackView;

    open spec fn view(&self) -> UpdatePlayerTrackView {
        UpdatePlayerTrackView {
            encoded: match self.encoded {
                Some(o) => Some(opt_view(o)),
                None => None,
            },
            identifier: opt_view(self.identifier),
            user_data: opt_view(self.user_data),
        }
    }
}

impl View for UpdatePlayer {
    type V = UpdatePlayerView;

    open spec fn view(&self) -> UpdatePlayerView {
        UpdatePlayerView {
            track: opt_view(self.track),
            position: self.position,
            end_time: self.end_time,
            volume: self.volume,
            paused: self.paused,
            filters: opt_view(self.filters),
            voice: opt_view(self.voice),
        }
    }
}

/// The wire format of [`PlayerState`]: `connected` reads as `false` and
/// `ping` as -1 when absent.
pub open spec fn player_state_from_json(j: Json) -> Option<PlayerState> {
    match (req_int(j, "time"@, i64::MIN as int, i64::MAX as int), req_int(j, "position"@, i64::MIN as int, i64::MAX as int),
        def_bool(j, "connected"@), def_int(j, "ping"@, i64::MIN as int, i64::MAX as int, -1)) {
        (Some(time), Some(position), Some(connected), Some(ping)) => Some(PlayerState {
            time: time as i64,
            position: position as i64,
            connected,
            ping: ping as i64,
        }),
        _ => None,
    }
}

pub open spec fn player_state_json(s: PlayerState) -> Json {
    Json::Object(seq![
        ("time"@, json_number(s.time as int)),
        ("position"@, json_number(s.position as int)),
        ("connected"@, Json::Bool(s.connected)),
        ("ping"@, json_number(s.ping as int)),
    ])
}

/// The wire format of [`VoiceState`]: `channelId` may be absent or `null`.
pub open spec fn voice_state_from_json(j: Json) -> Option<VoiceStateView> {
    match (req_str(j, "token"@), req_str(j, "endpoint"@), req_str(j, "sessionId"@), opt_str(j, "channelId"@)) {
        (Some(token), Some(endpoint), Some(session_id), Some(channel_id)) =>
            Some(VoiceStateView { token, endpoint, session_id, channel_id }),
        _ => None,
    }
}

/// One member when the value is present, none otherwise.
pub open spec fn opt_entry(k: Seq<char>, o: Option<Json>) -> Seq<(Seq<char>, Json)> {
    match o {
        Some(v) => seq![(k, v)],
        None => Seq::empty(),
    }
}

/// The JSON form of [`VoiceState`]; `channelId` is left out when `None`.
pub open spec fn voice_state_json(v: VoiceStateView) -> Json {
    Json::Object(seq![
        ("token"@, Json::Str(v.token)),
        ("endpoint"@, Json::Str(v.endpoint)),
        ("sessionId"@, Json::Str(v.session_id)),
    ] + opt_entry("channelId"@, match v.channel_id { Some(c) => Some(Json::Str(c)), None => None }))
}

/// The wire format of [`Player`]: `track` may be absent or `null`, `filters`
/// reads as `null` when absent.
pub open spec fn player_from_json(j: Json) -> Option<PlayerView> {
    let track: Option<Option<TrackView>> = match field(j, "track"@) {
        None => Some(None),
        Some(Json::Null) => Some(None),
        Some(t) => match track_from_json(t) {
            Some(x) => Some(Some(x)),
            None => None,
        },
    };
    match (req_str(j, "guildId"@), track, req_int(j, "volume"@, i32::MIN as int, i32::MAX as int),
        req_bool(j, "paused"@), field(j, "state"@), field(j, "voice"@)) {
        (Some(guild_id), Some(track), Some(volume), Some(paused), Some(s), Some(v)) =>
            match (player_state_from_json(s), voice_state_from_json(v)) {
                (Some(state), Some(voice)) => Some(PlayerView {
                    guild_id,
                    track,
                    volume: volume as i32,
                    paused,
                    state,
                    voice,
                    filters: any_or_null(j, "filters"@),
                }),
                _ => None,
            },
        _ => None,
    }
}

pub open spec fn player_json(p: PlayerView) -> Json {
    Json::Object(seq![
        ("guildId"@, Json::Str(p.guild_id)),
        ("track"@, match p.track { Some(t) => track_json(t), None => Json::Null }),
        ("volume"@, json_number(p.volume as int)),
        ("paused"@, Json::Bool(p.paused)),
        ("state"@, player_state_json(p.state)),
        ("voice"@, voice_state_json(p.voice)),
        ("filters"@, p.filters),
    ])
}

/// The JSON form of [`UpdatePlayerTrack`]: only the members that are set.
pub open spec fn update_player_track_json(t: UpdatePlayerTrackView) -> Json {
    Json::Object(
        opt_entry("encoded"@, match t.encoded {
            Some(Some(s)) => Some(Json::Str(s)),
            Some(None) => Some(Json::Null),
            None => None,
        }) + opt_entry("identifier"@, match t.identifier { Some(s) => Some(Json::Str(s)), None => None })
            + opt_entry("userData"@, t.user_data),
    )
}

/// The JSON form of [`UpdatePlayer`]: only the members that are set.
pub open spec fn update_player_json(u: UpdatePlayerView) -> Json {
    Json::Object(
        opt_entry("track"@, match u.track { Some(t) => Some(update_player_track_json(t)), None => None })
            + opt_entry("position"@, match u.position { Some(p) => Some(json_number(p as int)), None => None })
            + opt_entry("endTime"@, match u.end_time {
                Some(Some(e)) => Some(json_number(e as int)),
                Some(None) => Some(Json::Null),
                None => None,
            })
            + opt_entry("volume"@, match u.volume { Some(v) => Some(json_number(v as int)), None => None })
            + opt_entry("paused"@, match u.paused { Some(b) => Some(Json::Bool(b)), None => None })
            + opt_entry("filters"@, u.filters)
            + opt_entry("voice"@, match u.voice { Some(v) => Some(voice_state_json(v)), None => None }),
    )
}

/// Appends a member when the value is present.
fn push_opt(entries: &mut Vec<(String, JsonValue)>, k: &str, v: Option<JsonValue>)
    ensures
        entries_model(final(entries)@) == entries_model(old(entries)@) + opt_entry(k@, opt_view(v)),
{
    match v {
        Some(x) => {
            entries.push(entry(k, x));
            assert(entries_model(entries@) =~= entries_model(old(entries)@) + opt_entry(k@, opt_view(v)));
        },
        None => {
            assert(entries_model(entries@) =~= entries_model(old(entries)@) + opt_entry(k@, opt_view(v)));
        },
    }
}

/// The ping of a player state that does not send one: -1.
pub fn ping_default() -> (r: i64)
    ensures
        r == -1,
{
    -1
}

impl PlayerState {
    pub fn from_json(v: &JsonValue) -> (r: Option<PlayerState>)
        ensures
            r == player_state_from_json(v@),
    {
        let time = match read_req_int(v, "time", i64::MIN as i128, i64::MAX as i128) { Some(x) => x as i64, None => return None };
        let position = match read_req_int(v, "position", i64::MIN as i128, i64::MAX as i128) { Some(x) => x as i64, None => return None };
        let connected = match read_def_bool(v, "connected") { Some(x) => x, None => return None };
        let ping = match read_def_int(v, "ping", i64::MIN as i128, i64::MAX as i128, ping_default() as i128) { Some(x) => x as i64, None => return None };
        Some(PlayerState { time, position, connected, ping })
    }

    pub fn to_json(&self) -> (r: JsonValue)
        ensures
            r@ == player_state_json(*self),
    {
        let entries = vec![
            entry("time", JsonValue::from_i64(self.time)),
            entry("position", JsonValue::from_i64(self.position)),
            entry("connected", JsonValue::Bool(self.connected)),
            entry("ping", JsonValue::from_i64(self.ping)),
        ];
        let r = object(entries);
        assert(entries_model(entries@) =~= match player_state_json(*self) { Json::Object(e) => e, _ => Seq::empty() });
        r
    }
}

impl VoiceState {
    pub fn from_json(v: &JsonValue) -> (r: Option<VoiceState>)
        ensures
            opt_view(r) == voice_state_from_json(v@),
    {
        let token = match read_req_str(v, "token") { Some(x) => x, None => return None };
        let endpoint = match read_req_str(v, "endpoint") { Some(x) => x, None => return None };
        let session_id = match read_req_str(v, "sessionId") { Some(x) => x, None => return None };
        let channel_id = match read_opt_str(v, "channelId") { Some(x) => x, None => return None };
        Some(VoiceState { token, endpoint, session_id, channel_id })
    }

    pub fn to_json(&self) -> (r: JsonValue)
        ensures
            r@ == voice_state_json(self@),
    {
        let mut entries = vec![
            entry("token", JsonValue::Str(self.token.clone())),
            entry("endpoint", JsonValue::Str(self.endpoint.clone())),
            entry("sessionId", JsonValue::Str(self.session_id.clone())),
        ];
        let ghost first = entries_model(entries@);
        let c = match &self.channel_id {
            Some(c) => Some(JsonValue::Str(c.clone())),
            None => None,
        };
        push_opt(&mut entries, "channelId", c);
        let r = object(entries);
        assert(entries_model(entries@) =~= match voice_state_json(self@) { Json::Object(e) => e, _ => Seq::empty() });
        r
    }

    /// A copy of this voice state.
    pub fn copy(&self) -> (r: VoiceState)
        ensures
            r@ == self@,
    {
        VoiceState {
            token: self.token.clone(),
            endpoint: self.endpoint.clone(),
            session_id: self.session_id.clone(),
            channel_id: match &self.channel_id {
                Some(c) => Some(c.clone()),
                None => None,
            },
        }
    }
}

impl Player {
    /// Reads a [`Player`] from its JSON form.
    pub fn from_json(v: &JsonValue) -> (r: Option<Player>)
        ensures
            opt_view(r) == player_from_json(v@),
    {
        let track = match v.get("track") {
            None => None,
            Some(t) => if t.is_null() {
                None
            } else {
                match Track::from_json(t) { Some(x) => Some(x), None => return None }
            },
        };
        let guild_id = match read_req_str(v, "guildId") { Some(x) => x, None => return None };
        let volume = match read_req_int(v, "volume", i32::MIN as i128, i32::MAX as i128) { Some(x) => x as i32, None => return None };
        let paused = match read_req_bool(v, "paused") { Some(x) => x, None => return None };
        let state = match v.get("state") {
            Some(s) => match PlayerState::from_json(s) { Some(x) => x, None => return None },
            None => return None,
        };
        let voice = match v.get("voice") {
            Some(s) => match VoiceState::from_json(s) { Some(x) => x, None => return None },
            None => return None,
        };
        let filters = read_any_or_null(v, "filters");
        Some(Player { guild_id, track, volume, paused, state, voice, filters })
    }

    /// Writes this player in its JSON form.
    pub fn to_json(&self) -> (r: JsonValue)
        ensures
            r@ == player_json(self@),
    {
        let t = match &self.track {
            Some(t) => t.to_json(),
            None => JsonValue::Null,
        };
        let entries = vec![
            entry("guildId", JsonValue::Str(self.guild_id.clone())),
            entry("track", t),
            entry("volume", JsonValue::from_i64(self.volume as i64)),
            entry("paused", JsonValue::Bool(self.paused)),
            entry("state", self.state.to_json()),
            entry("voice", self.voice.to_json()),
            entry("filters", self.filters.deep_clone()),
        ];
        let r = object(entries);
        assert(entries_model(entries@) =~= match player_json(self@) { Json::Object(e) => e, _ => Seq::empty() });
        r
    }
}

impl UpdatePlayerTrack {
    /// The JSON form of this track update.
    pub fn to_json(&self) -> (r: JsonValue)
        ensures
            r@ == update_player_track_json(self@),
    {
        let mut entries: Vec<(String, JsonValue)> = Vec::new();
        let enc = match &self.encoded {
            Some(Some(s)) => Some(JsonValue::Str(s.clone())),
            Some(None) => Some(JsonValue::Null),
            None => None,
        };
        push_opt(&mut entries, "encoded", enc);
        let id = match &self.identifier {
            Some(s) => Some(JsonValue::Str(s.clone())),
            None => None,
        };
        push_opt(&mut entries, "identifier", id);
        let ud = match &self.user_data {
            Some(u) => Some(u.deep_clone()),
            None => None,
        };
        push_opt(&mut entries, "userData", ud);
        let r = object(entries);
        assert(entries_model(entries@) =~= match update_player_track_json(self@) { Json::Object(e) => e, _ => Seq::empty() });
        r
    }
}

impl Default for UpdatePlayerTrack {
    fn default() -> (r: UpdatePlayerTrack)
        ensures
            r.encoded is None,
            r.identifier is None,
            r.user_data is None,
    {
        UpdatePlayerTrack { encoded: None, identifier: None, user_data: None }
    }
}

impl Default for UpdatePlayer {
    fn default() -> (r: UpdatePlayer)
        ensures
            r.track is None,
            r.position is None,
            r.end_time is None,
            r.volume is None,
            r.paused is None,
            r.filters is None,
            r.voice is None,
    {
        UpdatePlayer { track: None, position: None, end_time: None, volume: None, paused: None, filters: None, voice: None }
    }
}

impl UpdatePlayer {
    /// Play a track by its encoded string.
    pub fn play(encoded: &str) -> (r: UpdatePlayer)
        ensures
            r@ == (UpdatePlayerView {
                track: Some(UpdatePlayerTrackView { encoded: Some(Some(encoded@)), identifier: None, user_data: None }),
                position: None,
                end_time: None,
                volume: None,
                paused: None,
                filters: None,
                voice: None,
            }),
    {
        UpdatePlayer {
            track: Some(UpdatePlayerTrack { encoded: Some(Some(string_of(encoded))), ..Default::default() }),
            ..Default::default()
        }
    }

    /// Stop playback (sends `{"track":{"encoded":null}}`).
    pub fn stop() -> (r: UpdatePlayer)
        ensures
            r@ == (UpdatePlayerView {
                track: Some(UpdatePlayerTrackView { encoded: Some(None), identifier: None, user_data: None }),
                position: None,
                end_time: None,
                volume: None,
                paused: None,
                filters: None,
                voice: None,
            }),
    {
        UpdatePlayer {
            track: Some(UpdatePlayerTrack { encoded: Some(None), ..Default::default() }),
            ..Default::default()
        }
    }

    /// The JSON form of this update: only the members that are set.
    pub fn to_json(&self) -> (r: JsonValue)
        ensures
            r@ == update_player_json(self@),
    {
        let mut entries: Vec<(String, JsonValue)> = Vec::new();
        let t = match &self.track {
            Some(t) => Some(t.to_json()),
            None => None,
        };
        push_opt(&mut entries, "track", t);
        let p = match self.position {
            Some(p) => Some(JsonValue::from_i64(p)),
            None => None,
        };
        push_opt(&mut entries, "position", p);
        let e = match self.end_time {
            Some(Some(e)) => Some(JsonValue::from_i64(e)),
            Some(None) => Some(JsonValue::Null),
            None => None,
        };
        push_opt(&mut entries, "endTime", e);
        let v = match self.volume {
            Some(v) => Some(JsonValue::from_i64(v as i64)),
            None => None,
        };
        push_opt(&mut entries, "volume", v);
        let pa = match self.paused {
            Some(b) => Some(JsonValue::Bool(b)),
            None => None,
        };
        push_opt(&mut entries, "paused", pa);
        let f = match &self.filters {
            Some(f) => Some(f.deep_clone()),
            None => None,
        };
        push_opt(&mut entries, "filters", f);
        let vo = match &self.voice {
            Some(v) => Some(v.to_json()),
            None => None,
        };
        push_opt(&mut entries, "voice", vo);
        let r = object(entries);
        assert(entries_model(entries@) =~= match update_player_json(self@) { Json::Object(e) => e, _ => Seq::empty() });
        r
    }
}

} // verus!
