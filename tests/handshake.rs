use std::time::Duration;

use bytes::Bytes;
use ipcprims::codec::Frame;
use ipcprims::handshake::check_handshake_frame;

use ipcprims::error::PeerError;
use ipcprims::handshake::{
    client_accept_response, client_request, intersect_channels, is_version_compatible,
    normalize_channels, parse_version, server_accept_request, server_prepare, validate_auth_token,
    validate_peer_id, validate_protocol_name, validate_version, HandshakeConfig, HandshakeRequest,
    HandshakeResponse, HandshakeResult,
};

fn handshake(
    client_cfg: &HandshakeConfig,
    requested: &[u16],
    server_cfg: &HandshakeConfig,
    supported: &[u16],
    peer_id: &str,
) -> (Result<HandshakeResult, PeerError>, Result<HandshakeResult, PeerError>) {
    let req = client_request(client_cfg, requested).expect("request should build");
    let sent = req.channels.clone();
    match server_accept_request(server_cfg, supported, peer_id, req) {
        Ok((resp, server_result)) => {
            (client_accept_response(client_cfg, &sent, resp), Ok(server_result))
        }
        Err(e) => (Err(PeerError::Disconnected("server closed".to_string())), Err(e)),
    }
}

#[test]
fn debug_output_redacts_auth_token() {
    let request = HandshakeRequest {
        protocol: "ipcprims".to_string(),
        version: "1.0".to_string(),
        channels: vec![1, 2],
        auth_token: Some("super-secret".to_string()),
    };
    let request_debug = request.redacted_debug();
    assert!(request_debug.contains("<redacted:12 bytes>"));
    assert!(!request_debug.contains("super-secret"));

    let config = HandshakeConfig {
        auth_token: Some("another-secret".to_string()),
        ..HandshakeConfig::default()
    };
    let config_debug = config.redacted_debug();
    assert!(config_debug.contains("<redacted:14 bytes>"));
    assert!(!config_debug.contains("another-secret"));

    let result = HandshakeResult {
        peer_id: "peer-1".to_string(),
        protocol_version: "1.0".to_string(),
        negotiated_channels: vec![1],
        client_auth_token: Some("token-123".to_string()),
    };
    let result_debug = result.redacted_debug();
    assert!(result_debug.contains("<redacted:9 bytes>"));
    assert!(!result_debug.contains("token-123"));
}

#[test]
fn request_rendering_is_exact() {
    let request = HandshakeRequest {
        protocol: "ipcprims".to_string(),
        version: "1.0".to_string(),
        channels: vec![1, 2],
        auth_token: None,
    };
    assert_eq!(
        request.redacted_debug(),
        "HandshakeRequest { protocol: \"ipcprims\", version: \"1.0\", channels: [1, 2], auth_token: None }"
    );
}

#[test]
fn successful_handshake() {
    let cfg = HandshakeConfig::default();
    let (client, server) = handshake(&cfg, &[1, 2, 3], &cfg, &[1, 2, 3], "peer-1");
    let client = client.unwrap();
    let server = server.unwrap();
    assert_eq!(client.peer_id, "peer-1");
    assert_eq!(client.protocol_version, "1.0");
    assert_eq!(client.negotiated_channels, vec![1, 2, 3]);
    assert!(client.client_auth_token.is_none());
    assert_eq!(server.negotiated_channels, vec![1, 2, 3]);
    assert!(server.client_auth_token.is_none());
}

#[test]
fn channel_negotiation_intersection() {
    let cfg = HandshakeConfig::default();
    let (client, server) = handshake(&cfg, &[1, 2, 3], &cfg, &[2, 3, 4], "peer-2");
    assert_eq!(client.unwrap().negotiated_channels, vec![2, 3]);
    assert_eq!(server.unwrap().negotiated_channels, vec![2, 3]);
}

#[test]
fn no_channel_overlap() {
    let cfg = HandshakeConfig::default();
    let (client, server) = handshake(&cfg, &[1], &cfg, &[2], "peer-3");
    assert!(matches!(client, Err(PeerError::Disconnected(_))));
    match server {
        Err(PeerError::HandshakeFailed(msg)) => assert_eq!(msg, "no overlapping channels"),
        _ => panic!("server handshake should fail"),
    }
}

#[test]
fn wrong_protocol_name_rejected() {
    let client_cfg = HandshakeConfig { protocol_name: "foobar".to_string(), ..HandshakeConfig::default() };
    let (client, server) = handshake(&client_cfg, &[1], &HandshakeConfig::default(), &[1], "peer-4");
    assert!(matches!(client, Err(PeerError::Disconnected(_))));
    assert!(matches!(server, Err(PeerError::HandshakeFailed(_))));
}

#[test]
fn version_mismatch() {
    let server_cfg = HandshakeConfig { protocol_version: "2.0".to_string(), ..HandshakeConfig::default() };
    let (client, server) = handshake(&HandshakeConfig::default(), &[1], &server_cfg, &[1], "peer-6");
    assert!(matches!(client, Err(PeerError::Disconnected(_))));
    assert!(matches!(server, Err(PeerError::HandshakeFailed(_))));
}

#[test]
fn auth_token_passthrough() {
    let client_cfg = HandshakeConfig { auth_token: Some("token-123".to_string()), ..HandshakeConfig::default() };
    let (client, server) = handshake(&client_cfg, &[1], &HandshakeConfig::default(), &[1], "peer-auth");
    assert!(client.unwrap().client_auth_token.is_none());
    assert_eq!(server.unwrap().client_auth_token.as_deref(), Some("token-123"));
}

#[test]
fn reject_control_channel_in_negotiation() {
    let result = client_request(&HandshakeConfig::default(), &[0, 1]);
    assert!(matches!(result, Err(PeerError::HandshakeFailed(_))));
}

#[test]
fn rejects_oversized_auth_token() {
    let cfg = HandshakeConfig { auth_token: Some("x".repeat(4097)), ..HandshakeConfig::default() };
    assert!(matches!(client_request(&cfg, &[1]), Err(PeerError::HandshakeFailed(_))));
    let cfg = HandshakeConfig { auth_token: Some("x".repeat(4096)), ..HandshakeConfig::default() };
    assert!(client_request(&cfg, &[1]).is_ok());
}

#[test]
fn empty_auth_token_rejected() {
    assert!(validate_auth_token(Some("")).is_err());
    assert!(validate_auth_token(None).is_ok());
}

#[test]
fn channel_list_limits() {
    let many: Vec<u16> = (1..=257).collect();
    assert!(normalize_channels(&many).is_err());
    let exact: Vec<u16> = (1..=256).collect();
    assert_eq!(normalize_channels(&exact).unwrap().len(), 256);
    assert_eq!(normalize_channels(&[3, 1, 3, 2, 1]).unwrap(), vec![3, 1, 2]);
    assert!(normalize_channels(&[1, 0]).is_err());
}

#[test]
fn intersection_keeps_request_order() {
    assert_eq!(intersect_channels(&[4, 2, 3], &[2, 3, 4]), vec![4, 2, 3]);
    assert_eq!(intersect_channels(&[1, 5], &[2]), Vec::<u16>::new());
}

#[test]
fn versions() {
    assert_eq!(parse_version("1.0").unwrap(), (1, 0));
    assert_eq!(parse_version("65535.7").unwrap(), (65535, 7));
    assert!(parse_version("1").is_err());
    assert!(parse_version("1.2.3").is_err());
    assert!(parse_version("a.1").is_err());
    assert!(parse_version("1.65536").is_err());
    assert!(is_version_compatible("1.0", "1.3").unwrap());
    assert!(!is_version_compatible("1.3", "1.0").unwrap());
    assert!(!is_version_compatible("1.0", "2.0").unwrap());
    assert!(validate_version("").is_err());
    assert!(validate_version("1.0").is_ok());
}

#[test]
fn field_bounds() {
    assert!(validate_protocol_name(&"p".repeat(32)).is_ok());
    assert!(validate_protocol_name(&"p".repeat(33)).is_err());
    assert!(validate_protocol_name("").is_err());
    assert!(validate_peer_id(&"i".repeat(128)).is_ok());
    assert!(validate_peer_id(&"i".repeat(129)).is_err());
}

#[test]
fn client_rejects_unrequested_channels() {
    let cfg = HandshakeConfig::default();
    let resp = HandshakeResponse {
        protocol: "ipcprims".to_string(),
        version: "1.0".to_string(),
        channels: vec![1, 9],
        peer_id: "p".to_string(),
    };
    assert!(client_accept_response(&cfg, &[1, 2], resp).is_err());
}

#[test]
fn server_checks_its_own_settings() {
    let cfg = HandshakeConfig { timeout: Duration::from_millis(25), ..HandshakeConfig::default() };
    assert_eq!(server_prepare(&cfg, &[2, 2, 1], "peer").unwrap(), vec![2, 1]);
    assert!(server_prepare(&cfg, &[1], "").is_err());
}

#[test]
fn rejects_oversized_handshake_payload() {
    let small = Frame::new(0, Bytes::from(vec![b'a'; 64]));
    assert!(check_handshake_frame(small, 64).is_ok());
    let big = Frame::new(0, Bytes::from(vec![b'a'; 256]));
    assert!(matches!(check_handshake_frame(big, 64), Err(PeerError::HandshakeFailed(_))));
    let wrong_channel = Frame::new(1, Bytes::from_static(b"{}"));
    assert!(matches!(check_handshake_frame(wrong_channel, 64), Err(PeerError::HandshakeFailed(_))));
}
