use serde_json::Value;

use wavecord::json::JsonValue;
use wavecord::model::{Event, LoadResult, ServerMessage, Severity, Track, TrackEndReason, UpdatePlayer};
use wavecord::protocol::v3::{filters_op, normalize_load_result, normalize_message, play_op};

fn json(text: &str) -> JsonValue {
    JsonValue::from_text(text).unwrap()
}

fn to_serde(v: &JsonValue) -> Value {
    serde_json::from_str(&v.to_text()).unwrap()
}

fn sample_track() -> String {
    r#"{
        "encoded": "QAAA...",
        "info": {
            "identifier": "dQw4w9WgXcQ",
            "isSeekable": true,
            "author": "RickAstley",
            "length": 212000,
            "isStream": false,
            "position": 0,
            "title": "Never Gonna Give You Up",
            "uri": "https://youtu.be/dQw4w9WgXcQ",
            "artworkUrl": "https://img/x.jpg",
            "isrc": null,
            "sourceName": "youtube"
        },
        "pluginInfo": {},
        "userData": {}
    }"#
    .to_string()
}

fn message(text: &str) -> ServerMessage {
    ServerMessage::from_json(&json(text)).unwrap()
}

fn load_result(text: &str) -> LoadResult {
    LoadResult::from_json(&json(text)).unwrap()
}

#[test]
fn parse_track() {
    let t = Track::from_json(&json(&sample_track())).unwrap();
    assert_eq!(t.info.title, "Never Gonna Give You Up");
    assert_eq!(t.info.length, 212000);
    assert!(t.info.is_seekable);
    assert_eq!(t.info.isrc, None);
}

#[test]
fn parse_ready() {
    let msg = message(r#"{"op":"ready","resumed":false,"sessionId":"abc"}"#);
    match msg {
        ServerMessage::Ready(r) => {
            assert!(!r.resumed);
            assert_eq!(r.session_id, "abc");
        }
        _ => panic!("wrong variant"),
    }
}

#[test]
fn parse_player_update() {
    let msg = message(
        r#"{"op":"playerUpdate","guildId":"1",
            "state":{"time":1710000000000,"position":1500,"connected":true,"ping":42}}"#,
    );
    match msg {
        ServerMessage::PlayerUpdate(p) => {
            assert_eq!(p.guild_id, "1");
            assert_eq!(p.state.position, 1500);
            assert!(p.state.connected);
        }
        _ => panic!("wrong variant"),
    }
}

#[test]
fn parse_stats() {
    let msg = message(
        r#"{"op":"stats","players":1,"playingPlayers":1,"uptime":10000,
            "memory":{"free":1,"used":2,"allocated":3,"reservable":4},
            "cpu":{"cores":8,"systemLoad":0.5,"lavalinkLoad":0.1},
            "frameStats":{"sent":3000,"nulled":10,"deficit":0}}"#,
    );
    match msg {
        ServerMessage::Stats(s) => {
            assert_eq!(s.playing_players, 1);
            assert_eq!(s.cpu.cores, 8);
            assert!(s.frame_stats.is_some());
        }
        _ => panic!("wrong variant"),
    }
}

#[test]
fn parse_track_start_and_end_events() {
    let start = message(&format!(
        r#"{{"op":"event","type":"TrackStartEvent","guildId":"1","track":{}}}"#,
        sample_track()
    ));
    assert!(matches!(start, ServerMessage::Event(Event::TrackStartEvent { .. })));

    let end = message(&format!(
        r#"{{"op":"event","type":"TrackEndEvent","guildId":"1","track":{},"reason":"finished"}}"#,
        sample_track()
    ));
    match end {
        ServerMessage::Event(Event::TrackEndEvent { reason, .. }) => {
            assert_eq!(reason, TrackEndReason::Finished);
        }
        _ => panic!("wrong variant"),
    }
}

#[test]
fn parse_ws_closed_event() {
    let msg = message(
        r#"{"op":"event","type":"WebSocketClosedEvent","guildId":"1",
            "code":4006,"reason":"","byRemote":true}"#,
    );
    match msg {
        ServerMessage::Event(Event::WebSocketClosedEvent { code, by_remote, .. }) => {
            assert_eq!(code, 4006);
            assert!(by_remote);
        }
        _ => panic!("wrong variant"),
    }
}

#[test]
fn parse_load_result_variants() {
    let track = load_result(&format!(r#"{{"loadType":"track","data":{}}}"#, sample_track()));
    assert!(matches!(track, LoadResult::Track(_)));

    let search = load_result(&format!(r#"{{"loadType":"search","data":[{}]}}"#, sample_track()));
    match search {
        LoadResult::Search(v) => assert_eq!(v.len(), 1),
        _ => panic!("wrong variant"),
    }

    let playlist = load_result(&format!(
        r#"{{"loadType":"playlist",
            "data":{{"info":{{"name":"Mix","selectedTrack":-1}},"pluginInfo":{{}},"tracks":[{}]}}}}"#,
        sample_track()
    ));
    match playlist {
        LoadResult::Playlist(p) => {
            assert_eq!(p.info.name, "Mix");
            assert_eq!(p.tracks.len(), 1);
        }
        _ => panic!("wrong variant"),
    }

    let empty = load_result(r#"{"loadType":"empty","data":null}"#);
    assert!(matches!(empty, LoadResult::Empty));

    let error = load_result(
        r#"{"loadType":"error",
            "data":{"message":"boom","severity":"common","cause":"x","causeStackTrace":"..."}}"#,
    );
    match error {
        LoadResult::Error(e) => assert_eq!(e.severity, Severity::Common),
        _ => panic!("wrong variant"),
    }
}

#[test]
fn v3_track_end_uppercase_reason_and_string_track() {
    let raw = r#"{"op":"event","type":"TrackEndEvent","guildId":"42",
                  "encodedTrack":"ENC","track":"ENC","reason":"FINISHED"}"#;
    let msg = normalize_message(raw).unwrap().unwrap();
    match msg {
        ServerMessage::Event(Event::TrackEndEvent { track, reason, .. }) => {
            assert_eq!(track.encoded, "ENC");
            assert!(track.info.is_none());
            assert_eq!(reason, TrackEndReason::Finished);
        }
        _ => panic!("wrong variant"),
    }
}

#[test]
fn v3_ready_and_stats_reuse_v4_shape() {
    let ready = normalize_message(r#"{"op":"ready","resumed":false,"sessionId":"s1"}"#)
        .unwrap()
        .unwrap();
    assert!(matches!(ready, ServerMessage::Ready(_)));

    let stats = normalize_message(
        r#"{"op":"stats","players":0,"playingPlayers":0,"uptime":1,
            "memory":{"free":1,"used":2,"allocated":3,"reservable":4},
            "cpu":{"cores":8,"systemLoad":0.0,"lavalinkLoad":0.0}}"#,
    )
    .unwrap()
    .unwrap();
    assert!(matches!(stats, ServerMessage::Stats(_)));
}

#[test]
fn v3_player_update_without_ping_defaults() {
    let msg = normalize_message(
        r#"{"op":"playerUpdate","guildId":"7","state":{"time":1,"position":2,"connected":true}}"#,
    )
    .unwrap()
    .unwrap();
    match msg {
        ServerMessage::PlayerUpdate(p) => {
            assert_eq!(p.guild_id, "7");
            assert_eq!(p.state.ping, -1);
        }
        _ => panic!("wrong variant"),
    }
}

fn v3_track() -> String {
    r#"{
        "encoded": "ENC", "track": "ENC",
        "info": {
            "identifier": "id", "isSeekable": true, "author": "a",
            "length": 1000, "isStream": false, "position": 0,
            "title": "t", "uri": "u", "sourceName": "http"
        }
    }"#
    .to_string()
}

#[test]
fn v3_loadtracks_shapes_normalize_to_canonical() {
    let track = normalize_load_result(&json(&format!(
        r#"{{"loadType":"TRACK_LOADED","tracks":[{}],"playlistInfo":{{}}}}"#,
        v3_track()
    )))
    .unwrap();
    match track {
        LoadResult::Track(t) => {
            assert_eq!(t.encoded, "ENC");
            assert_eq!(t.info.source_name, "http");
            assert!(t.info.artwork_url.is_none());
        }
        _ => panic!("wrong variant"),
    }

    let search = normalize_load_result(&json(&format!(
        r#"{{"loadType":"SEARCH_RESULT","tracks":[{},{}],"playlistInfo":{{}}}}"#,
        v3_track(),
        v3_track()
    )))
    .unwrap();
    assert!(matches!(search, LoadResult::Search(v) if v.len() == 2));

    let playlist = normalize_load_result(&json(&format!(
        r#"{{"loadType":"PLAYLIST_LOADED","tracks":[{}],"playlistInfo":{{"name":"Mix","selectedTrack":0}}}}"#,
        v3_track()
    )))
    .unwrap();
    match playlist {
        LoadResult::Playlist(p) => {
            assert_eq!(p.info.name, "Mix");
            assert_eq!(p.info.selected_track, 0);
        }
        _ => panic!("wrong variant"),
    }

    assert!(matches!(
        normalize_load_result(&json(r#"{"loadType":"NO_MATCHES","tracks":[],"playlistInfo":{}}"#)).unwrap(),
        LoadResult::Empty
    ));

    let err = normalize_load_result(&json(
        r#"{"loadType":"LOAD_FAILED","tracks":[],"playlistInfo":{},
            "exception":{"message":"boom","severity":"COMMON","cause":"x"}}"#,
    ))
    .unwrap();
    assert!(matches!(err, LoadResult::Error(_)));
}

#[test]
fn v3_play_op_shape() {
    let op = to_serde(&play_op("42", "ENC", Some(1000), None, Some(50), None, true));
    assert_eq!(op["op"], "play");
    assert_eq!(op["guildId"], "42");
    assert_eq!(op["track"], "ENC");
    assert_eq!(op["startTime"], 1000);
    assert_eq!(op["volume"], 50);
    assert_eq!(op["noReplace"], true);
    assert!(op.get("endTime").is_none());
    assert!(op.get("pause").is_none());
}

#[test]
fn v3_filters_op_flattens_fields() {
    let filters = json(r#"{"volume": 1.5, "equalizer": [{"band": 0, "gain": 0.2}]}"#);
    let op = to_serde(&filters_op("42", &filters));
    assert_eq!(op["op"], "filters");
    assert_eq!(op["guildId"], "42");
    assert_eq!(op["volume"], 1.5);
    assert_eq!(op["equalizer"][0]["band"], 0);
}

#[test]
fn serialize_update_player_play_and_stop() {
    let play = to_serde(&UpdatePlayer::play("ENCODED").to_json());
    let want: Value = serde_json::from_str(r#"{"track":{"encoded":"ENCODED"}}"#).unwrap();
    assert_eq!(play, want);

    let stop = to_serde(&UpdatePlayer::stop().to_json());
    let want: Value = serde_json::from_str(r#"{"track":{"encoded":null}}"#).unwrap();
    assert_eq!(stop, want);

    let vol = to_serde(&UpdatePlayer { volume: Some(50), paused: Some(true), ..Default::default() }.to_json());
    let want: Value = serde_json::from_str(r#"{"volume":50,"paused":true}"#).unwrap();
    assert_eq!(vol, want);
}

#[test]
fn whole_cpu_loads_read_as_fractions() {
    let cpu = wavecord::model::Cpu::from_json(&json(r#"{"cores":4,"systemLoad":0,"lavalinkLoad":-3}"#)).unwrap();
    assert_eq!(cpu.system_load, "0.0");
    assert_eq!(cpu.lavalink_load, "-3.0");
    let big = wavecord::model::Cpu::from_json(&json(r#"{"cores":4,"systemLoad":0.5,"lavalinkLoad":1e3}"#)).unwrap();
    assert_eq!(big.system_load, "0.5");
    assert_eq!(big.lavalink_load, "1000.0");
}
