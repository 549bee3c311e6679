use std::time::Duration;

use serde_json::Value;

use wavecord::json::JsonValue;
use wavecord::node::commands::{Command, HttpMethod, NodeState};
use wavecord::node::reader::{Frame, Reader};
use wavecord::node::supervisor::{backoff_delay_secs, ConnectionEvent, Supervisor, SupervisorAction};
use wavecord::{Error, LavalinkVersion, NodeConfig};

fn serde(v: &JsonValue) -> Value {
    serde_json::from_str(&v.to_text()).unwrap()
}

fn val(text: &str) -> Value {
    serde_json::from_str(text).unwrap()
}

fn state(version: Option<LavalinkVersion>, session: Option<&str>) -> NodeState {
    let cfg = NodeConfig {
        force_version: version,
        session_id: session.map(|s| s.to_string()),
        user_id: "42".into(),
        ..Default::default()
    };
    NodeState::new(&cfg)
}

fn rest(c: Command) -> (HttpMethod, String, Vec<(String, String)>, Option<Value>) {
    match c {
        Command::Rest(r) => (r.method, r.path, r.query, r.body.as_ref().map(serde)),
        Command::Ws(_) => panic!("expected a REST call"),
    }
}

fn ws(c: Command) -> Value {
    match c {
        Command::Ws(op) => serde(&op),
        Command::Rest(_) => panic!("expected a WebSocket op"),
    }
}

fn retry_secs(a: SupervisorAction) -> u64 {
    match a {
        SupervisorAction::Retry { delay_secs, delay } => {
            assert_eq!(delay, Duration::from_secs(delay_secs));
            delay_secs
        }
        other => panic!("expected a retry, got {other:?}"),
    }
}

#[test]
fn backoff_values_double_up_to_the_cap() {
    let secs: Vec<u64> = (0..8).map(backoff_delay_secs).collect();
    assert_eq!(secs, vec![1, 2, 4, 8, 16, 30, 30, 30]);
    assert_eq!(backoff_delay_secs(u32::MAX), 30);
}

#[test]
fn first_failure_gives_up_without_retrying() {
    let mut s = Supervisor::new(true);
    assert!(matches!(s.step(ConnectionEvent::Failed), SupervisorAction::GiveUp));
}

#[test]
fn supervisor_retries_with_backoff_and_resets_on_ready() {
    let mut s = Supervisor::new(true);
    assert!(matches!(s.step(ConnectionEvent::Ready), SupervisorAction::Serve { report_ready: true }));
    assert_eq!(retry_secs(s.step(ConnectionEvent::Closed)), 1);
    assert_eq!(retry_secs(s.step(ConnectionEvent::Failed)), 2);
    assert_eq!(retry_secs(s.step(ConnectionEvent::Failed)), 4);
    assert!(matches!(s.step(ConnectionEvent::Ready), SupervisorAction::Serve { report_ready: false }));
    assert_eq!(s.attempt, 0);
    assert_eq!(retry_secs(s.step(ConnectionEvent::Closed)), 1);
}

#[test]
fn supervisor_without_reconnect_stops() {
    let mut s = Supervisor::new(false);
    assert!(matches!(s.step(ConnectionEvent::Ready), SupervisorAction::Serve { report_ready: true }));
    assert!(matches!(s.step(ConnectionEvent::Closed), SupervisorAction::Stop));
}

#[test]
fn v4_reader_forwards_text_and_signals_first_ready() {
    let mut r = Reader::new(LavalinkVersion::V4);
    let ready = r#"{"op":"ready","resumed":false,"sessionId":"abc"}"#;
    let out = r.on_frame(Frame::Text(ready.to_string()));
    assert_eq!(out.forward.as_deref(), Some(ready));
    assert_eq!(out.session_id.as_deref(), Some("abc"));
    assert!(out.signal_ready);
    assert!(!out.stop);

    let again = r.on_frame(Frame::Text(ready.to_string()));
    assert!(!again.signal_ready);
    assert_eq!(again.session_id.as_deref(), Some("abc"));

    let stats = r#"{"op":"stats","players":0}"#;
    let out = r.on_frame(Frame::Text(stats.to_string()));
    assert_eq!(out.forward.as_deref(), Some(stats));
    assert_eq!(out.session_id, None);
    assert!(!out.signal_ready);
}

#[test]
fn v3_reader_forwards_normalized_messages() {
    let mut r = Reader::new(LavalinkVersion::V3);
    let out = r.on_frame(Frame::Text(r#"{"op":"ready","resumed":true,"sessionId":"s3"}"#.to_string()));
    assert!(out.signal_ready);
    assert_eq!(out.session_id.as_deref(), Some("s3"));
    let v: Value = serde_json::from_str(out.forward.as_deref().unwrap()).unwrap();
    assert_eq!(v, serde_json::from_str::<Value>(r#"{"op":"ready","resumed":true,"sessionId":"s3"}"#).unwrap());

    let out = r.on_frame(Frame::Text(
        r#"{"op":"event","type":"TrackEndEvent","guildId":"1","track":"QAAB","reason":"FINISHED"}"#.to_string(),
    ));
    let v: Value = serde_json::from_str(out.forward.as_deref().unwrap()).unwrap();
    assert_eq!(v["type"], "TrackEndEvent");
    assert_eq!(v["reason"], "finished");
    assert_eq!(v["track"]["encoded"], "QAAB");
    assert_eq!(v["track"]["info"], Value::Null);

    // Not read (unknown op) and not readable (bad JSON): dropped.
    let out = r.on_frame(Frame::Text(r#"{"op":"weird"}"#.to_string()));
    assert!(out.forward.is_none() && !out.stop);
    let out = r.on_frame(Frame::Text("not json".to_string()));
    assert!(out.forward.is_none() && !out.stop);
}

#[test]
fn reader_answers_pings_and_stops_on_close_or_error() {
    let mut r = Reader::new(LavalinkVersion::V4);
    let out = r.on_frame(Frame::Ping(vec![1, 2, 3]));
    assert_eq!(out.pong, Some(vec![1, 2, 3]));
    assert!(!out.stop);
    assert!(r.on_frame(Frame::Close).stop);
    assert!(r.on_frame(Frame::ReadError).stop);
    let out = r.on_frame(Frame::Other);
    assert!(!out.stop && out.forward.is_none() && out.pong.is_none());
}

#[test]
fn commands_need_a_connection() {
    let st = state(None, None);
    assert!(matches!(st.play("1", "ENC", None, None, None, None, false), Err(Error::NotConnected)));
    assert!(matches!(st.info(), Err(Error::NotConnected)));
    let v4_without_session = state(Some(LavalinkVersion::V4), None);
    assert!(matches!(v4_without_session.stop("1"), Err(Error::NotConnected)));
    assert!(matches!(v4_without_session.destroy_player("1"), Err(Error::NotConnected)));
    // Loading tracks needs only the version.
    assert!(v4_without_session.load_tracks("ytsearch:x").is_ok());
}

#[test]
fn v4_play_is_a_player_patch() {
    let st = state(Some(LavalinkVersion::V4), Some("sess/1"));
    let (m, path, query, body) = rest(st.play("123", "ENC", Some(5), None, Some(50), None, true).unwrap());
    assert_eq!(m, HttpMethod::Patch);
    assert_eq!(path, "/v4/sessions/sess%2F1/players/123");
    assert_eq!(query, vec![("noReplace".to_string(), "true".to_string())]);
    assert_eq!(
        body.unwrap(),
        serde_json::from_str::<Value>(r#"{"track":{"encoded":"ENC"},"position":5,"volume":50}"#).unwrap()
    );

    let (_, _, query, body) = rest(st.stop("123").unwrap());
    assert_eq!(query, vec![("noReplace".to_string(), "false".to_string())]);
    assert_eq!(body.unwrap(), serde_json::from_str::<Value>(r#"{"track":{"encoded":null}}"#).unwrap());

    let (m, path, query, body) = rest(st.destroy_player("123").unwrap());
    assert_eq!(m, HttpMethod::Delete);
    assert_eq!(path, "/v4/sessions/sess%2F1/players/123");
    assert!(query.is_empty() && body.is_none());
}

#[test]
fn v4_voice_and_filters_updates() {
    let st = state(Some(LavalinkVersion::V4), Some("s"));
    let (_, _, _, body) = rest(st.update_voice("9", "tok", "ep", "vs", Some("77")).unwrap());
    assert_eq!(
        body.unwrap(),
        serde_json::from_str::<Value>(r#"{"voice":{"token":"tok","endpoint":"ep","sessionId":"vs","channelId":"77"}}"#)
            .unwrap()
    );
    let filters = JsonValue::from_text(r#"{"volume":0.5}"#).unwrap();
    let (_, _, _, body) = rest(st.set_filters("9", &filters).unwrap());
    assert_eq!(body.unwrap(), serde_json::from_str::<Value>(r#"{"filters":{"volume":0.5}}"#).unwrap());
    let (_, _, _, body) = rest(st.set_pause("9", true).unwrap());
    assert_eq!(body.unwrap(), serde_json::from_str::<Value>(r#"{"paused":true}"#).unwrap());
    let (_, _, _, body) = rest(st.set_volume("9", 80).unwrap());
    assert_eq!(body.unwrap(), serde_json::from_str::<Value>(r#"{"volume":80}"#).unwrap());
    let (_, _, _, body) = rest(st.seek("9", 1500).unwrap());
    assert_eq!(body.unwrap(), serde_json::from_str::<Value>(r#"{"position":1500}"#).unwrap());
}

#[test]
fn v3_player_commands_are_websocket_ops() {
    let st = state(Some(LavalinkVersion::V3), None);
    let op = ws(st.play("5", "ENC", None, Some(9000), None, Some(true), false).unwrap());
    assert_eq!(
        op,
        serde_json::from_str::<Value>(r#"{"op":"play","guildId":"5","track":"ENC","noReplace":false,"endTime":9000,"pause":true}"#)
            .unwrap()
    );
    assert_eq!(ws(st.destroy_player("5").unwrap()), val(r#"{"op":"destroy","guildId":"5"}"#));
}

#[test]
fn track_loading_and_node_info_paths_follow_the_version() {
    let v4 = state(Some(LavalinkVersion::V4), Some("s"));
    let v3 = state(Some(LavalinkVersion::V3), None);
    let (m, path, query, _) = rest(v4.load_tracks("ytsearch:never gonna").unwrap());
    assert_eq!(m, HttpMethod::Get);
    assert_eq!(path, "/v4/loadtracks");
    assert_eq!(query, vec![("identifier".to_string(), "ytsearch:never gonna".to_string())]);
    assert_eq!(rest(v3.load_tracks("x").unwrap()).1, "/loadtracks");
    assert_eq!(rest(v4.info().unwrap()).1, "/v4/info");
    assert_eq!(rest(v3.info().unwrap()).1, "/v3/info");
    let (_, path, query, _) = rest(v4.decode_track("QAA").unwrap());
    assert_eq!(path, "/v4/decodetrack");
    assert_eq!(query, vec![("encodedTrack".to_string(), "QAA".to_string())]);
    let (_, path, query, _) = rest(v3.decode_track("QAA").unwrap());
    assert_eq!(path, "/decodetrack");
    assert_eq!(query, vec![("track".to_string(), "QAA".to_string())]);
}

#[test]
fn plugin_and_routeplanner_calls() {
    let st = state(Some(LavalinkVersion::V4), Some("s1"));
    let (_, path, query, _) = rest(st.load_search("q", "track,album"));
    assert_eq!(path, "/v4/loadsearch");
    assert_eq!(query, vec![("query".to_string(), "q".to_string()), ("types".to_string(), "track,album".to_string())]);
    let (_, path, query, _) = rest(st.lyrics("ENC", true));
    assert_eq!(path, "/v4/lyrics");
    assert_eq!(query, vec![("track".to_string(), "ENC".to_string()), ("skipTrackSource".to_string(), "true".to_string())]);
    let (_, path, _, _) = rest(st.current_lyrics("7", false).unwrap());
    assert_eq!(path, "/v4/sessions/s1/players/7/lyrics");
    let cats = vec!["sponsor".to_string(), "intro".to_string()];
    let (m, path, _, body) = rest(st.set_sponsorblock_categories("7", &cats).unwrap());
    assert_eq!(m, HttpMethod::Put);
    assert_eq!(path, "/v4/sessions/s1/players/7/sponsorblock/categories");
    assert_eq!(body.unwrap(), val(r#"["sponsor","intro"]"#));
    assert_eq!(rest(st.routeplanner_status().unwrap()).1, "/v4/routeplanner/status");
    let (m, path, _, body) = rest(st.routeplanner_free("1.2.3.4").unwrap());
    assert_eq!(m, HttpMethod::Post);
    assert_eq!(path, "/v4/routeplanner/free/address");
    assert_eq!(body.unwrap(), val(r#"{"address":"1.2.3.4"}"#));
    assert_eq!(rest(st.routeplanner_free_all().unwrap()).1, "/v4/routeplanner/free/all");
    let v3 = state(Some(LavalinkVersion::V3), None);
    assert_eq!(rest(v3.routeplanner_status().unwrap()).1, "/routeplanner/status");
}

#[test]
fn resuming_on_v4_patches_the_session() {
    let cfg = NodeConfig { user_id: "42".into(), resume_timeout: 90, ..Default::default() };
    let mut st = state(Some(LavalinkVersion::V4), None);
    assert!(st.configure_resuming(LavalinkVersion::V4, &cfg).is_none());
    st.set_session_id("abc".to_string());
    let (m, path, _, body) = rest(st.configure_resuming(LavalinkVersion::V4, &cfg).unwrap());
    assert_eq!(m, HttpMethod::Patch);
    assert_eq!(path, "/v4/sessions/abc");
    assert_eq!(body.unwrap(), val(r#"{"resuming":true,"timeout":90}"#));
    assert_eq!(st.resume_key, None);
}

#[test]
fn resuming_on_v3_keeps_the_key_for_the_next_handshake() {
    let cfg = NodeConfig { user_id: "42".into(), ..Default::default() };
    let mut st = state(None, None);
    st.set_version(LavalinkVersion::V3);
    let op = ws(st.configure_resuming(LavalinkVersion::V3, &cfg).unwrap());
    assert_eq!(op, val(r#"{"op":"configureResuming","key":"wavecord-42","timeout":60}"#));
    assert_eq!(st.resume_key.as_deref(), Some("wavecord-42"));
    assert_eq!(st.version, Some(LavalinkVersion::V3));
}

#[test]
fn v3_reader_writes_members_in_the_wire_order() {
    let mut r = Reader::new(LavalinkVersion::V3);
    let out = r.on_frame(Frame::Text(r#"{"op":"playerUpdate","guildId":"1","state":{"position":2,"time":1}}"#.to_string()));
    assert_eq!(
        out.forward.as_deref(),
        Some(r#"{"op":"playerUpdate","guildId":"1","state":{"time":1,"position":2,"connected":false,"ping":-1}}"#)
    );
    let out = r.on_frame(Frame::Text(
        r#"{"op":"event","reason":"FINISHED","type":"TrackEndEvent","track":"QAAB","guildId":"1"}"#.to_string(),
    ));
    assert_eq!(
        out.forward.as_deref(),
        Some(r#"{"op":"event","type":"TrackEndEvent","guildId":"1","track":{"encoded":"QAAB","info":null},"reason":"finished"}"#)
    );
}

#[test]
fn v4_ready_peek_reads_the_array_form_too() {
    let mut r = Reader::new(LavalinkVersion::V4);
    let out = r.on_frame(Frame::Text(r#"["ready","sid"]"#.to_string()));
    assert!(out.signal_ready);
    assert_eq!(out.session_id.as_deref(), Some("sid"));
    let mut r = Reader::new(LavalinkVersion::V4);
    let out = r.on_frame(Frame::Text(r#"["ready","sid",1]"#.to_string()));
    assert!(!out.signal_ready);
    assert_eq!(out.session_id, None);
    let out = r.on_frame(Frame::Text(r#"{"op":"ready","sessionId":5}"#.to_string()));
    assert!(!out.signal_ready);
}

#[test]
fn v3_stats_write_whole_loads_as_fractions() {
    let mut r = Reader::new(LavalinkVersion::V3);
    let out = r.on_frame(Frame::Text(
        r#"{"op":"stats","players":1,"playingPlayers":1,"uptime":5,
            "memory":{"free":1,"used":2,"allocated":3,"reservable":4},
            "cpu":{"cores":2,"systemLoad":1,"lavalinkLoad":0.25}}"#
            .to_string(),
    ));
    assert_eq!(
        out.forward.as_deref(),
        Some(r#"{"op":"stats","players":1,"playingPlayers":1,"uptime":5,"memory":{"free":1,"used":2,"allocated":3,"reservable":4},"cpu":{"cores":2,"systemLoad":1.0,"lavalinkLoad":0.25},"frameStats":null}"#)
    );
}
