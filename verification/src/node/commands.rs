//! The version-neutral command surface of a node: each command becomes a
//! REST call (v4, and the REST endpoints of v3) or a WebSocket op (v3),
//! which the caller sends.

use vstd::prelude::*;
use vstd::string::StringExecFns;
use vstd::string::StringSliceAdditionalSpecFns;

use crate::codec::{entry, opt_view};
use crate::error::{Error, ErrorKind, Result};
use crate::json::{entries_model, json_number, object, Json, JsonValue};
use crate::model::player::{update_player_json, UpdatePlayer, UpdatePlayerTrack, UpdatePlayerTrackView, UpdatePlayerView, VoiceState, VoiceStateView};
use crate::node::config::NodeConfig;
use crate::protocol::v3::{configure_resuming_op, destroy_op, filters_op, filters_op_json, op_json, pause_op, play_op, play_op_json, seek_op, stop_op, voice_update_op, voice_update_op_json, volume_op};
use crate::protocol::LavalinkVersion;
use crate::rest::{pct_encode, seg};
use crate::text::{string_of};

verus! {

/// An HTTP method.
#[derive(Clone, Copy, PartialEq, Eq, Structural, Debug)]
pub enum HttpMethod {
    Get,
    Post,
    Put,
    Patch,
    Delete,
}

/// A REST call: method, path below the node's base URL, query pairs and an
/// optional JSON body.
#[derive(Debug)]
pub struct RestCall {
    pub method: HttpMethod,
    pub path: String,
    pub query: Vec<(String, String)>,
    pub body: Option<JsonValue>,
}

/// What a command sends.
#[derive(Debug)]
pub enum Command {
    Rest(RestCall),
    /// A v3 op, sent as a text frame over the WebSocket.
    Ws(JsonValue),
}

pub struct RestCallView {
    pub method: HttpMethod,
    pub path: Seq<char>,
    pub query: Seq<(Seq<char>, Seq<char>)>,
    pub body: Option<Json>,
}

pub enum CommandView {
    Rest(RestCallView),
    Ws(Json),
}

impl View for RestCall {
    type V = RestCallView;

    open spec fn view(&self) -> RestCallView {
        RestCallView {
            method: self.method,
            path: self.path@,
            query: query_model(self.query@),
            body: opt_view(self.body),
        }
    }
}

impl View for Command {
    type V = CommandView;

    open spec fn view(&self) -> CommandView {
        match self {
            Command::Rest(c) => CommandView::Rest(c@),
            Command::Ws(j) => CommandView::Ws(j@),
        }
    }
}

/// What a node knows of its connection: the protocol version, the session
/// id, and (v3) the resume key.
#[derive(Debug)]
pub struct NodeState {
    pub version: Option<LavalinkVersion>,
    pub session_id: Option<String>,
    pub resume_key: Option<String>,
}

pub struct NodeStateView {
    pub version: Option<LavalinkVersion>,
    pub session_id: Option<Seq<char>>,
    pub resume_key: Option<Seq<char>>,
}

impl View for NodeState {
    type V = NodeStateView;

    open spec fn view(&self) -> NodeStateView {
        NodeStateView { version: self.version, session_id: opt_view(self.session_id), resume_key: opt_view(self.resume_key) }
    }
}

/// A string as a path segment: the percent-encoding of its UTF-8 bytes.
pub open spec fn seg_of(s: Seq<char>) -> Seq<char> {
    pct_encode(vstd::utf8::encode_utf8(s))
}

/// `/v4/sessions/{sid}/players/{guild}`, both segments encoded.
pub open spec fn player_path(sid: Seq<char>, guild_id: Seq<char>) -> Seq<char> {
    "/v4/sessions/"@ + seg_of(sid) + "/players/"@ + seg_of(guild_id)
}

/// `"true"` or `"false"`.
pub open spec fn bool_text(b: bool) -> Seq<char> {
    if b { "true"@ } else { "false"@ }
}

/// A REST call with no query and no body.
pub open spec fn plain_call(method: HttpMethod, path: Seq<char>) -> CommandView {
    CommandView::Rest(RestCallView { method, path, query: Seq::empty(), body: None })
}

/// The version, or `NotConnected` before it is known.
pub open spec fn require_version_spec(st: NodeStateView) -> core::result::Result<LavalinkVersion, ErrorKind> {
    match st.version {
        Some(v) => Ok(v),
        None => Err(ErrorKind::NotConnected),
    }
}

/// The session id, or `NotConnected` before it is known.
pub open spec fn require_session_spec(st: NodeStateView) -> core::result::Result<Seq<char>, ErrorKind> {
    match st.session_id {
        Some(s) => Ok(s),
        None => Err(ErrorKind::NotConnected),
    }
}

/// `PATCH /v4/sessions/{sid}/players/{guild}?noReplace=...` with the update
/// as its body; `NotConnected` without a session.
pub open spec fn rest_update_spec(st: NodeStateView, guild_id: Seq<char>, update: UpdatePlayerView, no_replace: bool) -> core::result::Result<CommandView, ErrorKind> {
    match require_session_spec(st) {
        Err(e) => Err(e),
        Ok(sid) => Ok(CommandView::Rest(RestCallView {
            method: HttpMethod::Patch,
            path: player_path(sid, guild_id),
            query: seq![("noReplace"@, bool_text(no_replace))],
            body: Some(update_player_json(update)),
        })),
    }
}

/// A command that is a player update on v4 and a WebSocket op on v3.
pub open spec fn player_command(st: NodeStateView, guild_id: Seq<char>, update: UpdatePlayerView, no_replace: bool, op: Json) -> core::result::Result<CommandView, ErrorKind> {
    match require_version_spec(st) {
        Err(e) => Err(e),
        Ok(LavalinkVersion::V4) => rest_update_spec(st, guild_id, update, no_replace),
        Ok(LavalinkVersion::V3) => Ok(CommandView::Ws(op)),
    }
}

/// An update that sets nothing.
pub open spec fn empty_update() -> UpdatePlayerView {
    UpdatePlayerView { track: None, position: None, end_time: None, volume: None, paused: None, filters: None, voice: None }
}

/// The update that plays a track.
pub open spec fn play_update(encoded: Seq<char>, start_ms: Option<i64>, end_ms: Option<i64>, volume: Option<i32>, paused: Option<bool>) -> UpdatePlayerView {
    UpdatePlayerView {
        track: Some(UpdatePlayerTrackView { encoded: Some(Some(encoded)), identifier: None, user_data: None }),
        position: start_ms,
        end_time: match end_ms { Some(e) => Some(Some(e)), None => None },
        volume,
        paused,
        filters: None,
        voice: None,
    }
}

/// The update that stops playback.
pub open spec fn stop_update() -> UpdatePlayerView {
    UpdatePlayerView {
        track: Some(UpdatePlayerTrackView { encoded: Some(None), identifier: None, user_data: None }),
        ..empty_update()
    }
}

/// A path that differs between v4 and v3.
pub open spec fn versioned(v: LavalinkVersion, v4: Seq<char>, v3: Seq<char>) -> Seq<char> {
    match v {
        LavalinkVersion::V4 => v4,
        LavalinkVersion::V3 => v3,
    }
}

fn player_path_of(sid: &str, guild_id: &str) -> (r: String)
    ensures
        r@ == player_path(sid@, guild_id@),
{
    let mut p = string_of("/v4/sessions/");
    let a = seg(sid);
    p.append(a.as_str());
    p.append("/players/");
    let b = seg(guild_id);
    p.append(b.as_str());
    p
}

fn bool_str(b: bool) -> (r: &'static str)
    ensures
        r@ == bool_text(b),
{
    if b { "true" } else { "false" }
}

fn rest(method: HttpMethod, path: String, query: Vec<(String, String)>, body: Option<JsonValue>) -> (r: Command)
    ensures
        r@ == CommandView::Rest(RestCallView {
            method,
            path: path@,
            query: query_model(query@),
            body: opt_view(body),
        }),
{
    Command::Rest(RestCall { method, path, query, body })
}

fn plain(method: HttpMethod, path: &str) -> (r: Command)
    ensures
        r@ == plain_call(method, path@),
{
    rest(method, string_of(path), no_query(), None)
}

/// The model of a list of query pairs.
pub open spec fn query_model(q: Seq<(String, String)>) -> Seq<(Seq<char>, Seq<char>)> {
    Seq::new(q.len(), |i: int| (q[i].0@, q[i].1@))
}

fn no_query() -> (r: Vec<(String, String)>)
    ensures
        query_model(r@) == Seq::<(Seq<char>, Seq<char>)>::empty(),
{
    let r: Vec<(String, String)> = Vec::new();
    assert(query_model(r@) =~= Seq::<(Seq<char>, Seq<char>)>::empty());
    r
}

fn query1(k: &str, v: &str) -> (r: Vec<(String, String)>)
    ensures
        query_model(r@) == seq![(k@, v@)],
{
    let r = vec![(string_of(k), string_of(v))];
    assert(query_model(r@) =~= seq![(k@, v@)]);
    r
}

fn query2(k1: &str, v1: &str, k2: &str, v2: &str) -> (r: Vec<(String, String)>)
    ensures
        query_model(r@) == seq![(k1@, v1@), (k2@, v2@)],
{
    let r = vec![(string_of(k1), string_of(v1)), (string_of(k2), string_of(v2))];
    assert(query_model(r@) =~= seq![(k1@, v1@), (k2@, v2@)]);
    r
}

impl NodeState {
    /// The state of a node that has not connected: the forced version, if
    /// any, and the session id to resume, if any.
    pub fn new(config: &NodeConfig) -> (r: NodeState)
        ensures
            r@ == (NodeStateView { version: config.force_version, session_id: opt_view(config.session_id), resume_key: None }),
    {
        NodeState {
            version: config.force_version,
            session_id: match &config.session_id {
                Some(s) => Some(s.clone()),
                None => None,
            },
            resume_key: None,
        }
    }

    /// The version, or `NotConnected` before it is known.
    pub fn require_version(&self) -> (r: Result<LavalinkVersion>)
        ensures
            match (r, require_version_spec(self@)) {
                (Ok(v), Ok(w)) => v == w,
                (Err(e), Err(k)) => e.kind() == k,
                _ => false,
            },
    {
        match self.version {
            Some(v) => Ok(v),
            None => Err(Error::NotConnected),
        }
    }

    /// The session id, or `NotConnected` before it is known.
    pub fn require_session(&self) -> (r: Result<String>)
        ensures
            match (r, require_session_spec(self@)) {
                (Ok(s), Ok(t)) => s@ == t,
                (Err(e), Err(k)) => e.kind() == k,
                _ => false,
            },
    {
        match &self.session_id {
            Some(s) => Ok(s.clone()),
            None => Err(Error::NotConnected),
        }
    }

    fn rest_update(&self, guild_id: &str, update: &UpdatePlayer, no_replace: bool) -> (r: Result<Command>)
        ensures
            cmd_matches(r, rest_update_spec(self@, guild_id@, update@, no_replace)),
    {
        let sid = match self.require_session() {
            Ok(s) => s,
            Err(e) => return Err(e),
        };
        let path = player_path_of(sid.as_str(), guild_id);
        let query = query1("noReplace", bool_str(no_replace));
        let r = rest(HttpMethod::Patch, path, query, Some(update.to_json()));
        proof {
            let expect = rest_update_spec(self@, guild_id@, update@, no_replace);
            assert(expect is Ok);
            assert(r@ == expect->Ok_0);
        }
        Ok(r)
    }

    fn player_command(&self, guild_id: &str, update: &UpdatePlayer, no_replace: bool, op: JsonValue) -> (r: Result<Command>)
        ensures
            cmd_matches(r, player_command(self@, guild_id@, update@, no_replace, op@)),
    {
        match self.require_version() {
            Err(e) => Err(e),
            Ok(LavalinkVersion::V4) => self.rest_update(guild_id, update, no_replace),
            Ok(LavalinkVersion::V3) => Ok(Command::Ws(op)),
        }
    }

    /// Play an encoded track: a player update on v4 (its response is the
    /// player), the `play` op on v3.
    pub fn play(
        &self,
        guild_id: &str,
        encoded: &str,
        start_ms: Option<i64>,
        end_ms: Option<i64>,
        volume: Option<i32>,
        paused: Option<bool>,
        no_replace: bool,
    ) -> (r: Result<Command>)
        ensures
            cmd_matches(r, player_command(self@, guild_id@, play_update(encoded@, start_ms, end_ms, volume, paused), no_replace,
                play_op_json(guild_id@, encoded@, start_ms, end_ms, volume, paused, no_replace))),
    {
        let update = UpdatePlayer {
            track: Some(UpdatePlayerTrack { encoded: Some(Some(string_of(encoded))), ..Default::default() }),
            position: start_ms,
            end_time: match end_ms { Some(e) => Some(Some(e)), None => None },
            volume,
            paused,
            ..Default::default()
        };
        assert(update@ == play_update(encoded@, start_ms, end_ms, volume, paused));
        let op = play_op(guild_id, encoded, start_ms, end_ms, volume, paused, no_replace);
        self.player_command(guild_id, &update, no_replace, op)
    }

    /// Stop playback.
    pub fn stop(&self, guild_id: &str) -> (r: Result<Command>)
        ensures
            cmd_matches(r, player_command(self@, guild_id@, stop_update(), false,
                op_json("stop"@, seq![("guildId"@, Json::Str(guild_id@))]))),
    {
        let update = UpdatePlayer::stop();
        assert(update@ == stop_update());
        self.player_command(guild_id, &update, false, stop_op(guild_id))
    }

    /// Pause or resume.
    pub fn set_pause(&self, guild_id: &str, paused: bool) -> (r: Result<Command>)
        ensures
            cmd_matches(r, player_command(self@, guild_id@, UpdatePlayerView { paused: Some(paused), ..empty_update() }, false,
                op_json("pause"@, seq![("guildId"@, Json::Str(guild_id@)), ("pause"@, Json::Bool(paused))]))),
    {
        let update = UpdatePlayer { paused: Some(paused), ..Default::default() };
        assert(update@ == UpdatePlayerView { paused: Some(paused), ..empty_update() });
        self.player_command(guild_id, &update, false, pause_op(guild_id, paused))
    }

    /// Set the volume.
    pub fn set_volume(&self, guild_id: &str, volume: i32) -> (r: Result<Command>)
        ensures
            cmd_matches(r, player_command(self@, guild_id@, UpdatePlayerView { volume: Some(volume), ..empty_update() }, false,
                op_json("volume"@, seq![("guildId"@, Json::Str(guild_id@)), ("volume"@, json_number(volume as int))]))),
    {
        let update = UpdatePlayer { volume: Some(volume), ..Default::default() };
        assert(update@ == UpdatePlayerView { volume: Some(volume), ..empty_update() });
        self.player_command(guild_id, &update, false, volume_op(guild_id, volume))
    }

    /// Seek to a position.
    pub fn seek(&self, guild_id: &str, position_ms: i64) -> (r: Result<Command>)
        ensures
            cmd_matches(r, player_command(self@, guild_id@, UpdatePlayerView { position: Some(position_ms), ..empty_update() }, false,
                op_json("seek"@, seq![("guildId"@, Json::Str(guild_id@)), ("position"@, json_number(position_ms as int))]))),
    {
        let update = UpdatePlayer { position: Some(position_ms), ..Default::default() };
        assert(update@ == UpdatePlayerView { position: Some(position_ms), ..empty_update() });
        self.player_command(guild_id, &update, false, seek_op(guild_id, position_ms))
    }

    /// Hand Lavalink the Discord voice connection. `channel_id` is required
    /// by Lavalink v4 (its voice state mandates the field); v3 ignores it.
    pub fn update_voice(&self, guild_id: &str, token: &str, endpoint: &str, session_id: &str, channel_id: Option<&str>) -> (r: Result<Command>)
        ensures
            cmd_matches(r, player_command(self@, guild_id@, UpdatePlayerView {
                voice: Some(VoiceStateView {
                    token: token@,
                    endpoint: endpoint@,
                    session_id: session_id@,
                    channel_id: match channel_id { Some(c) => Some(c@), None => None },
                }),
                ..empty_update()
            }, false, voice_update_op_json(guild_id@, token@, endpoint@, session_id@))),
    {
        let voice = VoiceState {
            token: string_of(token),
            endpoint: string_of(endpoint),
            session_id: string_of(session_id),
            channel_id: match channel_id { Some(c) => Some(string_of(c)), None => None },
        };
        let update = UpdatePlayer { voice: Some(voice), ..Default::default() };
        self.player_command(guild_id, &update, false, voice_update_op(guild_id, token, endpoint, session_id))
    }

    /// Apply a set of audio filters: nested under `filters` in the v4 update,
    /// at the top level of the v3 op.
    pub fn set_filters(&self, guild_id: &str, filters: &JsonValue) -> (r: Result<Command>)
        ensures
            cmd_matches(r, player_command(self@, guild_id@, UpdatePlayerView { filters: Some(filters@), ..empty_update() }, false,
                filters_op_json(guild_id@, filters@))),
    {
        let update = UpdatePlayer { filters: Some(filters.deep_clone()), ..Default::default() };
        assert(update@ == UpdatePlayerView { filters: Some(filters@), ..empty_update() });
        self.player_command(guild_id, &update, false, filters_op(guild_id, filters))
    }

    /// Destroy a player: `DELETE /v4/sessions/{sid}/players/{guild}` on v4,
    /// the `destroy` op on v3.
    pub fn destroy_player(&self, guild_id: &str) -> (r: Result<Command>)
        ensures
            cmd_matches(r, match require_version_spec(self@) {
                Err(e) => Err(e),
                Ok(LavalinkVersion::V4) => match require_session_spec(self@) {
                    Err(e) => Err(e),
                    Ok(sid) => Ok(plain_call(HttpMethod::Delete, player_path(sid, guild_id@))),
                },
                Ok(LavalinkVersion::V3) => Ok(CommandView::Ws(op_json("destroy"@, seq![("guildId"@, Json::Str(guild_id@))]))),
            }),
    {
        match self.require_version() {
            Err(e) => Err(e),
            Ok(LavalinkVersion::V4) => {
                let sid = match self.require_session() {
                    Ok(s) => s,
                    Err(e) => return Err(e),
                };
                let path = player_path_of(sid.as_str(), guild_id);
                let r = rest(HttpMethod::Delete, path, no_query(), None);
                assert(r@ == plain_call(HttpMethod::Delete, player_path(sid@, guild_id@)));
                Ok(r)
            },
            Ok(LavalinkVersion::V3) => Ok(Command::Ws(destroy_op(guild_id))),
        }
    }

    /// Resolve or search tracks: `GET /v4/loadtracks` or `GET /loadtracks`
    /// with the identifier as the query.
    pub fn load_tracks(&self, identifier: &str) -> (r: Result<Command>)
        ensures
            cmd_matches(r, match require_version_spec(self@) {
                Err(e) => Err(e),
                Ok(v) => Ok(CommandView::Rest(RestCallView {
                    method: HttpMethod::Get,
                    path: versioned(v, "/v4/loadtracks"@, "/loadtracks"@),
                    query: seq![("identifier"@, identifier@)],
                    body: None,
                })),
            }),
    {
        let v = match self.require_version() {
            Ok(v) => v,
            Err(e) => return Err(e),
        };
        let path = match v {
            LavalinkVersion::V4 => "/v4/loadtracks",
            LavalinkVersion::V3 => "/loadtracks",
        };
        let r = rest(HttpMethod::Get, string_of(path), query1("identifier", identifier), None);
        assert(r@ == CommandView::Rest(RestCallView {
            method: HttpMethod::Get,
            path: versioned(v, "/v4/loadtracks"@, "/loadtracks"@),
            query: seq![("identifier"@, identifier@)],
            body: None,
        }));
        Ok(r)
    }

    /// Node info (version, source managers, and loaded plugins).
    pub fn info(&self) -> (r: Result<Command>)
        ensures
            cmd_matches(r, match require_version_spec(self@) {
                Err(e) => Err(e),
                Ok(v) => Ok(plain_call(HttpMethod::Get, versioned(v, "/v4/info"@, "/v3/info"@))),
            }),
    {
        match self.require_version() {
            Ok(LavalinkVersion::V4) => Ok(plain(HttpMethod::Get, "/v4/info")),
            Ok(LavalinkVersion::V3) => Ok(plain(HttpMethod::Get, "/v3/info")),
            Err(e) => Err(e),
        }
    }

    /// Decode a base64 track string into its info without playing it.
    pub fn decode_track(&self, encoded: &str) -> (r: Result<Command>)
        ensures
            cmd_matches(r, match require_version_spec(self@) {
                Err(e) => Err(e),
                Ok(LavalinkVersion::V4) => Ok(CommandView::Rest(RestCallView {
                    method: HttpMethod::Get, path: "/v4/decodetrack"@, query: seq![("encodedTrack"@, encoded@)], body: None,
                })),
                Ok(LavalinkVersion::V3) => Ok(CommandView::Rest(RestCallView {
                    method: HttpMethod::Get, path: "/decodetrack"@, query: seq![("track"@, encoded@)], body: None,
                })),
            }),
    {
        match self.require_version() {
            Ok(LavalinkVersion::V4) => {
                let r = rest(HttpMethod::Get, string_of("/v4/decodetrack"), query1("encodedTrack", encoded), None);
                assert(r@ == CommandView::Rest(RestCallView {
                    method: HttpMethod::Get, path: "/v4/decodetrack"@, query: seq![("encodedTrack"@, encoded@)], body: None,
                }));
                Ok(r)
            },
            Ok(LavalinkVersion::V3) => {
                let r = rest(HttpMethod::Get, string_of("/decodetrack"), query1("track", encoded), None);
                assert(r@ == CommandView::Rest(RestCallView {
                    method: HttpMethod::Get, path: "/decodetrack"@, query: seq![("track"@, encoded@)], body: None,
                }));
                Ok(r)
            },
            Err(e) => Err(e),
        }
    }

    /// LavaSearch plugin: `GET /v4/loadsearch`. `types` is a comma-separated
    /// list such as `"track,album,artist,playlist,text"` (v4 only).
    pub fn load_search(&self, query: &str, types: &str) -> (r: Command)
        ensures
            r@ == CommandView::Rest(RestCallView {
                method: HttpMethod::Get, path: "/v4/loadsearch"@, query: seq![("query"@, query@), ("types"@, types@)], body: None,
            }),
    {
        let r = rest(HttpMethod::Get, string_of("/v4/loadsearch"), query2("query", query, "types", types), None);
        assert(r@ == CommandView::Rest(RestCallView {
            method: HttpMethod::Get, path: "/v4/loadsearch"@, query: seq![("query"@, query@), ("types"@, types@)], body: None,
        }));
        r
    }

    /// LavaLyrics plugin: lyrics for an encoded track (v4 only).
    pub fn lyrics(&self, encoded: &str, skip_track_source: bool) -> (r: Command)
        ensures
            r@ == CommandView::Rest(RestCallView {
                method: HttpMethod::Get,
                path: "/v4/lyrics"@,
                query: seq![("track"@, encoded@), ("skipTrackSource"@, bool_text(skip_track_source))],
                body: None,
            }),
    {
        let r = rest(HttpMethod::Get, string_of("/v4/lyrics"), query2("track", encoded, "skipTrackSource", bool_str(skip_track_source)), None);
        assert(r@ == CommandView::Rest(RestCallView {
            method: HttpMethod::Get,
            path: "/v4/lyrics"@,
            query: seq![("track"@, encoded@), ("skipTrackSource"@, bool_text(skip_track_source))],
            body: None,
        }));
        r
    }

    /// LavaLyrics plugin: lyrics for a guild's current track (v4 only).
    pub fn current_lyrics(&self, guild_id: &str, skip_track_source: bool) -> (r: Result<Command>)
        ensures
            cmd_matches(r, match require_session_spec(self@) {
                Err(e) => Err(e),
                Ok(sid) => Ok(CommandView::Rest(RestCallView {
                    method: HttpMethod::Get,
                    path: player_path(sid, guild_id@) + "/lyrics"@,
                    query: seq![("skipTrackSource"@, bool_text(skip_track_source))],
                    body: None,
                })),
            }),
    {
        let sid = match self.require_session() {
            Ok(s) => s,
            Err(e) => return Err(e),
        };
        let mut path = player_path_of(sid.as_str(), guild_id);
        path.append("/lyrics");
        let r = rest(HttpMethod::Get, path, query1("skipTrackSource", bool_str(skip_track_source)), None);
        assert(r@ == CommandView::Rest(RestCallView {
            method: HttpMethod::Get,
            path: player_path(sid@, guild_id@) + "/lyrics"@,
            query: seq![("skipTrackSource"@, bool_text(skip_track_source))],
            body: None,
        }));
        Ok(r)
    }

    /// SponsorBlock plugin: set the categories to skip for a guild's player
    /// (v4): `PUT .../sponsorblock/categories` with the list as the body.
    pub fn set_sponsorblock_categories(&self, guild_id: &str, categories: &Vec<String>) -> (r: Result<Command>)
        ensures
            cmd_matches(r, match require_session_spec(self@) {
                Err(e) => Err(e),
                Ok(sid) => Ok(CommandView::Rest(RestCallView {
                    method: HttpMethod::Put,
                    path: player_path(sid, guild_id@) + "/sponsorblock/categories"@,
                    query: Seq::empty(),
                    body: Some(Json::Array(Seq::new(categories@.len(), |i: int| Json::Str(categories@[i]@)))),
                })),
            }),
    {
        let sid = match self.require_session() {
            Ok(s) => s,
            Err(e) => return Err(e),
        };
        let mut path = player_path_of(sid.as_str(), guild_id);
        path.append("/sponsorblock/categories");
        let mut items: Vec<JsonValue> = Vec::new();
        let mut i: usize = 0;
        while i < categories.len()
            invariant
                i <= categories.len(),
                items@.len() == i,
                forall|k: int| 0 <= k < i ==> (#[trigger] items@[k])@ == Json::Str(categories@[k]@),
            decreases categories.len() - i,
        {
            items.push(JsonValue::Str(categories[i].clone()));
            i = i + 1;
        }
        let body = JsonValue::Array(items);
        assert(body@ == Json::Array(Seq::new(categories@.len(), |i: int| Json::Str(categories@[i]@)))) by {
            if let Json::Array(x) = body@ {
                assert(x =~= Seq::new(categories@.len(), |i: int| Json::Str(categories@[i]@)));
            }
        }
        let r = rest(HttpMethod::Put, path, no_query(), Some(body));
        assert(r@ == CommandView::Rest(RestCallView {
            method: HttpMethod::Put,
            path: player_path(sid@, guild_id@) + "/sponsorblock/categories"@,
            query: Seq::empty(),
            body: Some(Json::Array(Seq::new(categories@.len(), |i: int| Json::Str(categories@[i]@)))),
        }));
        Ok(r)
    }

    /// Route planner status (for balancing and failing over IP blocks).
    pub fn routeplanner_status(&self) -> (r: Result<Command>)
        ensures
            cmd_matches(r, match require_version_spec(self@) {
                Err(e) => Err(e),
                Ok(v) => Ok(plain_call(HttpMethod::Get, versioned(v, "/v4/routeplanner/status"@, "/routeplanner/status"@))),
            }),
    {
        match self.require_version() {
            Ok(LavalinkVersion::V4) => Ok(plain(HttpMethod::Get, "/v4/routeplanner/status")),
            Ok(LavalinkVersion::V3) => Ok(plain(HttpMethod::Get, "/routeplanner/status")),
            Err(e) => Err(e),
        }
    }

    /// Unmark one failed address in the route planner.
    pub fn routeplanner_free(&self, address: &str) -> (r: Result<Command>)
        ensures
            cmd_matches(r, match require_version_spec(self@) {
                Err(e) => Err(e),
                Ok(v) => Ok(CommandView::Rest(RestCallView {
                    method: HttpMethod::Post,
                    path: versioned(v, "/v4/routeplanner/free/address"@, "/routeplanner/free/address"@),
                    query: Seq::empty(),
                    body: Some(Json::Object(seq![("address"@, Json::Str(address@))])),
                })),
            }),
    {
        let v = match self.require_version() {
            Ok(v) => v,
            Err(e) => return Err(e),
        };
        let path = match v {
            LavalinkVersion::V4 => "/v4/routeplanner/free/address",
            LavalinkVersion::V3 => "/routeplanner/free/address",
        };
        let body_entries = vec![entry("address", JsonValue::from_str(address))];
        assert(entries_model(body_entries@) =~= seq![("address"@, Json::Str(address@))]);
        let body = object(body_entries);
        let r = rest(HttpMethod::Post, string_of(path), no_query(), Some(body));
        assert(r@ == CommandView::Rest(RestCallView {
            method: HttpMethod::Post,
            path: versioned(v, "/v4/routeplanner/free/address"@, "/routeplanner/free/address"@),
            query: Seq::empty(),
            body: Some(Json::Object(seq![("address"@, Json::Str(address@))])),
        }));
        Ok(r)
    }

    /// Unmark all failed addresses in the route planner.
    pub fn routeplanner_free_all(&self) -> (r: Result<Command>)
        ensures
            cmd_matches(r, match require_version_spec(self@) {
                Err(e) => Err(e),
                Ok(v) => Ok(plain_call(HttpMethod::Post, versioned(v, "/v4/routeplanner/free/all"@, "/routeplanner/free/all"@))),
            }),
    {
        match self.require_version() {
            Ok(LavalinkVersion::V4) => Ok(plain(HttpMethod::Post, "/v4/routeplanner/free/all")),
            Ok(LavalinkVersion::V3) => Ok(plain(HttpMethod::Post, "/routeplanner/free/all")),
            Err(e) => Err(e),
        }
    }
}

/// The resume key of a v3 node: `wavecord-{user_id}`.
pub open spec fn resume_key_for(user_id: Seq<char>) -> Seq<char> {
    "wavecord-"@ + user_id
}

/// What enabling session resuming sends, and the state it leaves: on v4 a
/// `PATCH /v4/sessions/{sid}` with `{"resuming": true, "timeout": ...}` when
/// the session id is known (nothing otherwise); on v3 the
/// `configureResuming` op with the node's resume key, which is kept for
/// the next handshake.
pub open spec fn configure_resuming_spec(st: NodeStateView, version: LavalinkVersion, user_id: Seq<char>, timeout: u64) -> (NodeStateView, Option<CommandView>) {
    match version {
        LavalinkVersion::V4 => match st.session_id {
            Some(sid) => (st, Some(CommandView::Rest(RestCallView {
                method: HttpMethod::Patch,
                path: "/v4/sessions/"@ + seg_of(sid),
                query: Seq::empty(),
                body: Some(Json::Object(seq![("resuming"@, Json::Bool(true)), ("timeout"@, json_number(timeout as int))])),
            }))),
            None => (st, None),
        },
        LavalinkVersion::V3 => (
            NodeStateView { resume_key: Some(resume_key_for(user_id)), ..st },
            Some(CommandView::Ws(op_json("configureResuming"@, seq![
                ("key"@, Json::Str(resume_key_for(user_id))),
                ("timeout"@, json_number(timeout as int)),
            ]))),
        ),
    }
}

impl NodeState {
    /// Enable session resuming so players survive a short reconnect (the
    /// node keeps them alive for `config.resume_timeout` seconds).
    pub fn configure_resuming(&mut self, version: LavalinkVersion, config: &NodeConfig) -> (r: Option<Command>)
        ensures
            (final(self)@, match r { Some(c) => Some(c@), None => None })
                == configure_resuming_spec(old(self)@, version, config.user_id@, config.resume_timeout),
    {
        match version {
            LavalinkVersion::V4 => match &self.session_id {
                Some(sid) => {
                    let mut path = string_of("/v4/sessions/");
                    let s = seg(sid.as_str());
                    path.append(s.as_str());
                    let body_entries = vec![
                        entry("resuming", JsonValue::Bool(true)),
                        entry("timeout", JsonValue::from_u64(config.resume_timeout)),
                    ];
                    assert(entries_model(body_entries@) =~= seq![("resuming"@, Json::Bool(true)), ("timeout"@, json_number(config.resume_timeout as int))]);
                    let body = object(body_entries);
                    Some(rest(HttpMethod::Patch, path, no_query(), Some(body)))
                },
                None => None,
            },
            LavalinkVersion::V3 => {
                let mut key = string_of("wavecord-");
                key.append(config.user_id.as_str());
                let op = configure_resuming_op(key.as_str(), config.resume_timeout);
                self.resume_key = Some(key);
                Some(Command::Ws(op))
            },
        }
    }

    /// Records the session id that a `ready` message carried.
    pub fn set_session_id(&mut self, session_id: String)
        ensures
            final(self)@ == (NodeStateView { session_id: Some(session_id@), ..old(self)@ }),
    {
        self.session_id = Some(session_id);
    }

    /// Records the protocol version.
    pub fn set_version(&mut self, version: LavalinkVersion)
        ensures
            final(self)@ == (NodeStateView { version: Some(version), ..old(self)@ }),
    {
        self.version = Some(version);
    }
}

/// Whether a command result matches its model.
pub open spec fn cmd_matches(r: Result<Command>, m: core::result::Result<CommandView, ErrorKind>) -> bool {
    match (r, m) {
        (Ok(c), Ok(v)) => c@ == v,
        (Err(e), Err(k)) => e.kind() == k,
        _ => false,
    }
}

/// Commands follow the protocol: before the version is known a player
/// command is refused as `NotConnected`; on v3 it is the WebSocket op; on v4
/// with a session it is a `PATCH` of that guild's player carrying the update,
/// and without a session it is refused as `NotConnected`.
pub proof fn law_commands_follow_the_version(st: NodeStateView, guild_id: Seq<char>, update: UpdatePlayerView, no_replace: bool, op: Json)
    ensures
        st.version is None ==> player_command(st, guild_id, update, no_replace, op) == Err::<CommandView, ErrorKind>(ErrorKind::NotConnected),
        st.version == Some(LavalinkVersion::V3) ==> player_command(st, guild_id, update, no_replace, op) == Ok::<CommandView, ErrorKind>(CommandView::Ws(op)),
        st.version == Some(LavalinkVersion::V4) && st.session_id is None
            ==> player_command(st, guild_id, update, no_replace, op) == Err::<CommandView, ErrorKind>(ErrorKind::NotConnected),
        st.version == Some(LavalinkVersion::V4) && st.session_id is Some ==> player_command(st, guild_id, update, no_replace, op)
            == Ok::<CommandView, ErrorKind>(CommandView::Rest(RestCallView {
                method: HttpMethod::Patch,
                path: player_path(st.session_id->0, guild_id),
                query: seq![("noReplace"@, bool_text(no_replace))],
                body: Some(update_player_json(update)),
            })),
{
}

} // verus!
