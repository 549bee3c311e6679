use serde_json::Value;

use wavecord::decode::{decode_message, parse_version, version_str, DecodeError};
use wavecord::error::JsonError;
use wavecord::json::JsonValue;
use wavecord::model::{Event, LoadResult, Player, ServerMessage, Severity};
use wavecord::rest::{check_status, read_load_result_v3, read_load_result_v4, read_player_body, read_value_body, seg};
use wavecord::ws::{build_ws_request, ws_headers};
use wavecord::{Error, LavalinkVersion, NodeConfig};

fn val(text: &str) -> Value {
    serde_json::from_str(text).unwrap()
}

fn serde(v: &JsonValue) -> Value {
    serde_json::from_str(&v.to_text()).unwrap()
}

fn config() -> NodeConfig {
    NodeConfig {
        host: "lava.local".into(),
        port: 2333,
        password: "youshallnotpass".into(),
        user_id: "1234".into(),
        client_name: "WaveCord/1.1.0".into(),
        ..Default::default()
    }
}

#[test]
fn seg_encodes_every_byte_outside_the_unreserved_set() {
    assert_eq!(seg("a b"), "a%20b");
    assert_eq!(seg("../x"), "%2E%2E%2Fx");
    assert_eq!(seg("é"), "%C3%A9");
    assert_eq!(seg("AZaz09"), "AZaz09");
    assert_eq!(seg(""), "");
}

#[test]
fn status_outside_2xx_is_an_api_error() {
    assert!(check_status(200, String::new()).is_ok());
    assert!(check_status(204, String::new()).is_ok());
    match check_status(404, "no such player".to_string()) {
        Err(Error::Api { status, body }) => {
            assert_eq!(status, 404);
            assert_eq!(body, "no such player");
        }
        other => panic!("unexpected {other:?}"),
    }
    assert!(matches!(check_status(199, String::new()), Err(Error::Api { status: 199, .. })));
    assert!(matches!(check_status(300, String::new()), Err(Error::Api { status: 300, .. })));
}

#[test]
fn empty_bodies_read_as_null() {
    assert!(matches!(read_value_body("").unwrap(), JsonValue::Null));
    assert!(matches!(read_value_body("  \n\t").unwrap(), JsonValue::Null));
    assert_eq!(serde(&read_value_body(r#"{"a":[1,2]}"#).unwrap()), val(r#"{"a":[1,2]}"#));
    assert!(matches!(read_value_body("{oops"), Err(Error::Json(JsonError::Syntax(_)))));
}

#[test]
fn player_body_is_read_with_defaults() {
    let p: Player = read_player_body(
        r#"{"guildId":"1","track":null,"volume":100,"paused":false,
            "state":{"time":5,"position":0,"connected":true},
            "voice":{"token":"t","endpoint":"e","sessionId":"s"}}"#,
    )
    .unwrap();
    assert_eq!(p.guild_id, "1");
    assert!(p.track.is_none());
    assert_eq!(p.state.ping, -1);
    assert!(p.state.connected);
    assert_eq!(p.voice.channel_id, None);
    assert!(matches!(p.filters, JsonValue::Null));
    assert!(matches!(read_player_body(r#"{"guildId":"1"}"#), Err(Error::Json(JsonError::Shape(_)))));
}

#[test]
fn v4_load_bodies() {
    assert!(matches!(read_load_result_v4(r#"{"loadType":"empty","data":{}}"#), Err(Error::Json(JsonError::Shape(_)))));
    assert!(matches!(read_load_result_v4(r#"{"loadType":"empty"}"#).unwrap(), LoadResult::Empty));
    assert!(matches!(read_load_result_v4(r#"{"loadType":"nope"}"#), Err(Error::Json(JsonError::Shape(_)))));
    match read_load_result_v4(r#"{"loadType":"error","data":{"message":null,"severity":"fault","cause":"c"}}"#).unwrap() {
        LoadResult::Error(e) => {
            assert_eq!(e.severity, Severity::Fault);
            assert_eq!(e.message, None);
            assert_eq!(e.cause.as_deref(), Some("c"));
            assert_eq!(e.cause_stack_trace, None);
        }
        other => panic!("unexpected {other:?}"),
    }
}

#[test]
fn v3_load_body_errors() {
    match read_load_result_v3(r#"{"loadType":"WHATEVER"}"#) {
        Err(Error::Other(m)) => assert_eq!(m, "unknown v3 loadType \"WHATEVER\""),
        other => panic!("unexpected {other:?}"),
    }
    match read_load_result_v3(r#"{"loadType":"TRACK_LOADED","tracks":[]}"#) {
        Err(Error::Other(m)) => assert_eq!(m, "TRACK_LOADED with no tracks"),
        other => panic!("unexpected {other:?}"),
    }
    match read_load_result_v3(r#"{"tracks":[]}"#) {
        Err(Error::Other(m)) => assert_eq!(m, "missing string field \"loadType\""),
        other => panic!("unexpected {other:?}"),
    }
    match read_load_result_v3(r#"{"loadType":"SEARCH_RESULT","tracks":[{"info":{}}]}"#) {
        Err(Error::Other(m)) => assert_eq!(m, "v3 track missing encoded/track"),
        other => panic!("unexpected {other:?}"),
    }
    assert!(matches!(read_load_result_v3(r#"{"loadType":"SEARCH_RESULT"}"#).unwrap(), LoadResult::Search(ts) if ts.is_empty()));
}

#[test]
fn handshake_headers_carry_the_resume_credential_of_the_version() {
    let cfg = config();
    let names = |h: &Vec<(&'static str, String)>| h.iter().map(|(n, v)| format!("{n}={v}")).collect::<Vec<_>>();
    assert_eq!(
        names(&ws_headers(&cfg, LavalinkVersion::V4, Some("sid"), Some("key"))),
        vec!["Authorization=youshallnotpass", "User-Id=1234", "Client-Name=WaveCord/1.1.0", "Session-Id=sid"]
    );
    assert_eq!(
        names(&ws_headers(&cfg, LavalinkVersion::V3, Some("sid"), Some("key"))),
        vec!["Authorization=youshallnotpass", "User-Id=1234", "Client-Name=WaveCord/1.1.0", "Resume-Key=key"]
    );
    assert_eq!(ws_headers(&cfg, LavalinkVersion::V4, None, None).len(), 3);
}

#[test]
fn ws_request_is_built_with_the_headers() {
    let req = build_ws_request(&config(), LavalinkVersion::V4, Some("sid"), None).unwrap();
    assert_eq!(req.uri().to_string(), "ws://lava.local:2333/v4/websocket");
    assert_eq!(req.headers().get("Authorization").unwrap(), "youshallnotpass");
    assert_eq!(req.headers().get("User-Id").unwrap(), "1234");
    assert_eq!(req.headers().get("Session-Id").unwrap(), "sid");
    assert!(req.headers().get("Resume-Key").is_none());
    assert_eq!(req.headers().len(), 9);

    let req = build_ws_request(&config(), LavalinkVersion::V3, Some("sid"), Some("key")).unwrap();
    assert_eq!(req.uri().to_string(), "ws://lava.local:2333/v3/websocket");
    assert_eq!(req.headers().get("Resume-Key").unwrap(), "key");
    assert!(req.headers().get("Session-Id").is_none());
    assert_eq!(req.headers().get("Client-Name").unwrap(), "WaveCord/1.1.0");
    assert_eq!(req.headers().len(), 9);

    let req = build_ws_request(&config(), LavalinkVersion::V4, None, Some("key")).unwrap();
    assert!(req.headers().get("Session-Id").is_none());
    assert!(req.headers().get("Resume-Key").is_none());
    assert_eq!(req.headers().len(), 8);
}

#[test]
fn bad_header_values_and_urls_are_refused() {
    let mut cfg = config();
    cfg.password = "line\nbreak".into();
    match build_ws_request(&cfg, LavalinkVersion::V4, None, None) {
        Err(Error::Header(m)) => assert_eq!(m, "failed to parse header value"),
        other => panic!("unexpected {other:?}"),
    }
    let mut cfg = config();
    cfg.host = "bad host".into();
    assert!(matches!(build_ws_request(&cfg, LavalinkVersion::V4, None, None), Err(Error::Ws(_))));
}

#[test]
fn version_names() {
    assert_eq!(parse_version(None).unwrap(), None);
    assert_eq!(parse_version(Some("v3")).unwrap(), Some(LavalinkVersion::V3));
    assert_eq!(parse_version(Some("3")).unwrap(), Some(LavalinkVersion::V3));
    assert_eq!(parse_version(Some("v4")).unwrap(), Some(LavalinkVersion::V4));
    assert_eq!(parse_version(Some("4")).unwrap(), Some(LavalinkVersion::V4));
    assert_eq!(parse_version(Some("V4")).unwrap_err(), "version must be 'v3' or 'v4', got \"V4\"");
    assert_eq!(version_str(LavalinkVersion::V3), "v3");
    assert_eq!(version_str(LavalinkVersion::V4), "v4");
}

#[test]
fn decode_reads_v4_as_is_and_normalizes_v3() {
    match decode_message(r#"{"op":"ready","resumed":true,"sessionId":"x"}"#, "v4").unwrap() {
        Some(ServerMessage::Ready(r)) => assert!(r.resumed && r.session_id == "x"),
        other => panic!("unexpected {other:?}"),
    }
    match decode_message(r#"{"op":"event","type":"TrackStartEvent","guildId":"1","track":"ENC"}"#, "3").unwrap() {
        Some(ServerMessage::Event(Event::TrackStartEvent { guild_id, track })) => {
            assert_eq!(guild_id, "1");
            assert_eq!(track.encoded, "ENC");
            assert!(track.info.is_none());
        }
        other => panic!("unexpected {other:?}"),
    }
    assert!(decode_message(r#"{"op":"somethingElse"}"#, "v3").unwrap().is_none());
    assert!(matches!(
        decode_message(r#"{"op":"somethingElse"}"#, "v4"),
        Err(DecodeError::Message(Error::Json(JsonError::Shape(_))))
    ));
    assert!(matches!(decode_message("{", "v4"), Err(DecodeError::Message(Error::Json(JsonError::Syntax(_))))));
    assert!(matches!(decode_message("{}", "v5"), Err(DecodeError::Version(_))));
    match decode_message(r#"{"op":"event","type":"TrackStartEvent","guildId":"1"}"#, "v3") {
        Err(DecodeError::Message(Error::Other(m))) => assert_eq!(m, "missing field \"encodedTrack\""),
        other => panic!("unexpected {other:?}"),
    }
}

#[test]
fn version_string_edge_cases() {
    assert_eq!(LavalinkVersion::from_version_string("  4.0.0-beta \n").unwrap(), LavalinkVersion::V4);
    assert_eq!(LavalinkVersion::from_version_string("+3.1").unwrap(), LavalinkVersion::V3);
    assert_eq!(LavalinkVersion::from_version_string("4").unwrap(), LavalinkVersion::V4);
    match LavalinkVersion::from_version_string("2.0.0") {
        Err(Error::Other(m)) => assert_eq!(m, "unsupported Lavalink major version 2"),
        other => panic!("unexpected {other:?}"),
    }
    match LavalinkVersion::from_version_string("abc") {
        Err(Error::Other(m)) => assert_eq!(m, "unrecognized version string: \"abc\""),
        other => panic!("unexpected {other:?}"),
    }
    assert_eq!(LavalinkVersion::V3.ws_path(), "/v3/websocket");
    assert_eq!(LavalinkVersion::V4.ws_path(), "/v4/websocket");
}

#[test]
fn messages_and_load_results_read_back_what_they_write() {
    let texts = [
        r#"{"op":"ready","resumed":false,"sessionId":"abc"}"#,
        r#"{"op":"playerUpdate","guildId":"1","state":{"time":1,"position":2,"connected":true,"ping":3}}"#,
        r#"{"op":"stats","players":1,"playingPlayers":0,"uptime":9,
            "memory":{"free":1,"used":2,"allocated":3,"reservable":4},
            "cpu":{"cores":4,"systemLoad":0.25,"lavalinkLoad":0.5},
            "frameStats":{"sent":6000,"nulled":-1,"deficit":0}}"#,
        r#"{"op":"event","type":"WebSocketClosedEvent","guildId":"1","code":4006,"reason":"gone","byRemote":true}"#,
        r#"{"op":"event","type":"TrackStuckEvent","guildId":"1","track":{"encoded":"E","info":null},"thresholdMs":100}"#,
    ];
    for t in texts {
        let m = ServerMessage::from_json(&JsonValue::from_text(t).unwrap()).unwrap();
        let written = m.to_json();
        let back = ServerMessage::from_json(&written).unwrap();
        assert_eq!(serde(&back.to_json()), serde(&written));
        assert_eq!(serde(&written), val(t));
    }
    let lr = read_load_result_v4(r#"{"loadType":"empty","data":null}"#).unwrap();
    let written = lr.to_json();
    assert_eq!(serde(&written), val(r#"{"loadType":"empty"}"#));
    assert!(matches!(LoadResult::from_json(&written).unwrap(), LoadResult::Empty));
}

#[test]
fn json_values_survive_the_serde_bridge() {
    let text = r#"{"a":null,"b":[true,false],"c":-12,"d":"x\"y","e":{"f":1.5}}"#;
    let v = JsonValue::from_text(text).unwrap();
    assert_eq!(serde(&v), val(text));
    assert_eq!(v.get("c").unwrap().int_in(-100, 100), Some(-12));
    assert_eq!(v.get("d").unwrap().as_str().map(|s| s.as_str()), Some("x\"y"));
    assert!(v.get("a").unwrap().is_null());
    assert!(v.get("zz").is_none());
}
