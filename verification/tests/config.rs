use moonlight_web::config::{
    default_bind_address, default_forwarded_headers_auto_create_user, default_ice_servers,
    default_include_loopback_candidates, default_level_filter, default_moonlight_http_port,
    default_network_types, default_pair_device_name, default_session_cookie_expiration,
    default_session_cookie_secure, default_session_expiration_check_interval,
    default_streamer_path, Config, ConfigDuration, ForwardedHeaders, LevelFilter, LogConfig,
    MoonlightConfig, PortRange, PortRangeFromStrError, StorageConfig, WebRtcConfig,
    WebRtcNetworkType, WebRtcNetworkTypeFromStr, WebServerConfig,
};
use std::str::FromStr;

#[test]
fn default_values() {
    assert_eq!(default_level_filter(), LevelFilter::Info);
    assert_eq!(
        default_session_expiration_check_interval(),
        ConfigDuration { secs: 300, nanos: 0 }
    );
    assert_eq!(
        default_network_types(),
        vec![WebRtcNetworkType::Udp4, WebRtcNetworkType::Udp6]
    );
    assert!(default_include_loopback_candidates());
    assert_eq!(default_bind_address(), "0.0.0.0:8080");
    assert!(!default_session_cookie_secure());
    assert_eq!(
        default_session_cookie_expiration(),
        ConfigDuration { secs: 86_400, nanos: 0 }
    );
    assert!(default_forwarded_headers_auto_create_user());
    assert_eq!(default_moonlight_http_port(), 47989);
    assert_eq!(default_pair_device_name(), "roth");
    assert_eq!(default_streamer_path(), "./streamer");
}

#[test]
fn default_ice_servers_are_the_public_stun_servers() {
    let servers = default_ice_servers();
    assert_eq!(servers.len(), 1);
    assert!(servers[0].is_default);
    assert_eq!(servers[0].username, "");
    assert_eq!(servers[0].credential, "");
    assert_eq!(
        servers[0].urls,
        vec![
            "stun:stun.l.google.com:19302",
            "stun:stun.l.google.com:5349",
            "stun:stun1.l.google.com:3478",
            "stun:stun1.l.google.com:5349",
            "stun:stun2.l.google.com:19302",
            "stun:stun2.l.google.com:5349",
            "stun:stun3.l.google.com:3478",
            "stun:stun3.l.google.com:5349",
            "stun:stun4.l.google.com:19302",
            "stun:stun4.l.google.com:5349",
        ]
    );
}

#[test]
fn default_config() {
    let config = Config::default();
    assert_eq!(
        config.data_storage,
        StorageConfig::Json {
            path: "server/data.json".to_string(),
            session_expiration_check_interval: ConfigDuration { secs: 300, nanos: 0 },
        }
    );
    assert_eq!(config.streamer_path, "./streamer");
    assert_eq!(config.default_settings, None);
    assert_eq!(config.discord, None);
    assert_eq!(config.log, LogConfig { level_filter: LevelFilter::Info, file_path: None });
    assert_eq!(
        config.moonlight,
        MoonlightConfig { default_http_port: 47989, pair_device_name: "roth".to_string() }
    );
    assert_eq!(
        config.webrtc,
        WebRtcConfig {
            ice_servers: default_ice_servers(),
            port_range: None,
            nat_1to1: None,
            network_types: vec![WebRtcNetworkType::Udp4, WebRtcNetworkType::Udp6],
            include_loopback_candidates: true,
        }
    );
    assert_eq!(
        config.web_server,
        WebServerConfig {
            bind_address: "0.0.0.0:8080".to_string(),
            certificate: None,
            url_path_prefix: String::new(),
            session_cookie_secure: false,
            session_cookie_expiration: ConfigDuration { secs: 86_400, nanos: 0 },
            first_login_create_admin: true,
            first_login_assign_global_hosts: true,
            default_user_id: None,
            forwarded_header: None,
        }
    );
    assert_eq!(
        ForwardedHeaders::default(),
        ForwardedHeaders {
            username_header: "X-Forwarded-User".to_string(),
            auto_create_missing_user: true,
        }
    );
}

#[test]
fn network_type_words() {
    assert_eq!(WebRtcNetworkType::from_str("udp4"), Ok(WebRtcNetworkType::Udp4));
    assert_eq!(WebRtcNetworkType::from_str("udp6"), Ok(WebRtcNetworkType::Udp6));
    assert_eq!(WebRtcNetworkType::from_str("tcp4"), Ok(WebRtcNetworkType::Tcp4));
    assert_eq!(WebRtcNetworkType::from_str("tcp6"), Ok(WebRtcNetworkType::Tcp6));
    assert_eq!(WebRtcNetworkType::from_str("UDP4"), Err(WebRtcNetworkTypeFromStr));
    assert_eq!(WebRtcNetworkType::from_str(""), Err(WebRtcNetworkTypeFromStr));
    assert_eq!(WebRtcNetworkType::from_str("udp4 "), Err(WebRtcNetworkTypeFromStr));
    assert_eq!(WebRtcNetworkType::Udp4.name(), "udp4");
    assert_eq!(WebRtcNetworkType::Udp6.name(), "udp6");
    assert_eq!(WebRtcNetworkType::Tcp4.name(), "tcp4");
    assert_eq!(WebRtcNetworkType::Tcp6.name(), "tcp6");
    assert_eq!(WebRtcNetworkTypeFromStr.message(), "not a valid network type");
}

#[test]
fn port_range_is_read_as_min_colon_max() {
    assert_eq!(PortRange::from_str("40000:40010"), Ok(PortRange { min: 40000, max: 40010 }));
    assert_eq!(PortRange::from_str("0:65535"), Ok(PortRange { min: 0, max: 65535 }));
    assert_eq!(PortRange::from_str("+5:007"), Ok(PortRange { min: 5, max: 7 }));
    assert_eq!(PortRange::parse("10:1"), Ok(PortRange { min: 10, max: 1 }));
}

#[test]
fn port_range_without_colon_is_refused() {
    assert_eq!(PortRange::from_str("40000"), Err(PortRangeFromStrError::Split));
    assert_eq!(PortRange::from_str(""), Err(PortRangeFromStrError::Split));
    assert_eq!(PortRange::from_str("1-2"), Err(PortRangeFromStrError::Split));
}

#[test]
fn port_range_with_bad_number_is_refused() {
    assert_eq!(PortRange::from_str(":"), Err(PortRangeFromStrError::ParseNumber));
    assert_eq!(PortRange::from_str("1:"), Err(PortRangeFromStrError::ParseNumber));
    assert_eq!(PortRange::from_str(":2"), Err(PortRangeFromStrError::ParseNumber));
    assert_eq!(PortRange::from_str("a:2"), Err(PortRangeFromStrError::ParseNumber));
    assert_eq!(PortRange::from_str("1:65536"), Err(PortRangeFromStrError::ParseNumber));
    assert_eq!(PortRange::from_str("99999999999999999999:1"), Err(PortRangeFromStrError::ParseNumber));
    assert_eq!(PortRange::from_str("1:2:3"), Err(PortRangeFromStrError::ParseNumber));
    assert_eq!(PortRange::from_str("-1:2"), Err(PortRangeFromStrError::ParseNumber));
    assert_eq!(PortRange::from_str("+:2"), Err(PortRangeFromStrError::ParseNumber));
    assert_eq!(PortRange::from_str(" 1:2"), Err(PortRangeFromStrError::ParseNumber));
}

#[test]
fn ice_server_as_a_line_of_text() {
    let server = moonlight_web::api_bindings::RtcIceServer {
        is_default: false,
        urls: vec!["stun:a".to_string(), "turn:b".to_string(), "turn:c".to_string()],
        username: "user".to_string(),
        credential: "secret".to_string(),
    };
    assert_eq!(
        server.describe(),
        "urls=[stun:a, turn:b, turn:c], username=\"user\", credential=\"secret\""
    );
    let empty = moonlight_web::api_bindings::RtcIceServer::default();
    assert_eq!(empty.describe(), "urls=[], username=\"\", credential=\"\"");
    let one = moonlight_web::api_bindings::RtcIceServer {
        urls: vec!["stun:a".to_string()],
        ..moonlight_web::api_bindings::RtcIceServer::default()
    };
    assert_eq!(one.describe(), "urls=[stun:a], username=\"\", credential=\"\"");
}
