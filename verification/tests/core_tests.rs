use std::time::Duration;

use wavecord::backoff;
use wavecord::rest::seg;
use wavecord::LavalinkVersion;
use wavecord::NodeConfig;

#[test]
fn urls_are_built_correctly() {
    let cfg = NodeConfig {
        host: "localhost".into(),
        port: 2333,
        password: "pw".into(),
        user_id: "1".into(),
        client_name: "WaveCord/0.1".into(),
        ..Default::default()
    };
    assert_eq!(cfg.http_base(), "http://localhost:2333");
    assert_eq!(cfg.ws_url(LavalinkVersion::V4), "ws://localhost:2333/v4/websocket");
    assert_eq!(cfg.ws_url(LavalinkVersion::V3), "ws://localhost:2333/v3/websocket");
}

#[test]
fn path_segments_are_percent_encoded() {
    assert_eq!(seg("123456789012345678"), "123456789012345678");
    assert!(!seg("../../secret").contains('/'));
    assert!(!seg("a/b?c#d").contains(['/', '?', '#']));
}

#[test]
fn backoff_grows_then_caps() {
    assert_eq!(backoff(0), Duration::from_secs(1));
    assert_eq!(backoff(1), Duration::from_secs(2));
    assert_eq!(backoff(2), Duration::from_secs(4));
    assert_eq!(backoff(10), Duration::from_secs(30));
}

#[test]
fn version_detection_from_string() {
    assert_eq!(LavalinkVersion::from_version_string("3.7.13").unwrap(), LavalinkVersion::V3);
    assert_eq!(LavalinkVersion::from_version_string("4.2.2").unwrap(), LavalinkVersion::V4);
    assert!(LavalinkVersion::from_version_string("2.0.0").is_err());
}
