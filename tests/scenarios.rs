use bytes::BytesMut;
use ipcprims::channel::COMMAND;
use ipcprims::codec::{decode_frame, encode_frame, Frame, DEFAULT_MAX_PAYLOAD};
use ipcprims::error::{PeerError, SchemaError};
use ipcprims::handshake::{
    client_accept_response, client_request, server_accept_request, HandshakeConfig,
    HandshakeResult,
};
use ipcprims::schema::{RegistryConfig, SchemaRegistry};
use ipcprims::session::{control_kind, ControlStep, FrameStep, Peer, PeerConfig, Waiting};

/// Runs the handshake decisions of both sides; gives (client, server).
fn negotiate(requested: &[u16], supported: &[u16]) -> Result<(Peer, Peer), (PeerError, PeerError)> {
    let cfg = HandshakeConfig::default();
    let req = client_request(&cfg, requested).unwrap();
    let sent = req.channels.clone();
    match server_accept_request(&cfg, supported, "peer-1", req) {
        Ok((resp, server)) => {
            let client = client_accept_response(&cfg, &sent, resp).unwrap();
            Ok((session(client), session(server)))
        }
        Err(e) => Err((PeerError::Disconnected("connection closed during handshake".into()), e)),
    }
}

fn session(result: HandshakeResult) -> Peer {
    Peer::new(result.peer_id.clone(), result, PeerConfig::default())
}

/// Puts one frame on a simulated wire and takes it off on the other end.
fn transmit(channel: u16, payload: &[u8]) -> Frame {
    let mut wire = BytesMut::new();
    encode_frame(channel, payload, &mut wire).unwrap();
    decode_frame(&mut wire, DEFAULT_MAX_PAYLOAD).unwrap().unwrap()
}

#[test]
fn scenario_basic_round_trip() {
    let (mut client, mut server) = negotiate(&[1, 2, 3], &[1, 2, 3]).ok().unwrap();
    client.check_send(1, 5, Ok(())).unwrap();
    let received = match server.on_frame(transmit(1, b"hello"), Waiting::AnyChannel, Ok(())) {
        Ok(FrameStep::Deliver(f)) => f,
        _ => panic!("server should receive the frame"),
    };
    assert_eq!(received.channel, 1);
    assert_eq!(received.payload.as_ref(), b"hello");
    server.check_send(1, received.payload.len(), Ok(())).unwrap();
    assert!(client.next_buffered(Waiting::Channel(1)).is_none());
    match client.on_frame(transmit(1, b"hello"), Waiting::Channel(1), Ok(())) {
        Ok(FrameStep::Deliver(f)) => {
            assert_eq!(f.channel, 1);
            assert_eq!(f.payload.as_ref(), b"hello");
        }
        _ => panic!("client should receive the echo"),
    }
}

#[test]
fn scenario_channel_intersection() {
    let (client, server) = negotiate(&[1, 2, 3], &[2, 3, 4]).ok().unwrap();
    assert_eq!(client.handshake_result().negotiated_channels, vec![2, 3]);
    assert_eq!(server.handshake_result().negotiated_channels, vec![2, 3]);
    assert!(matches!(client.check_send(1, 3, Ok(())), Err(PeerError::UnsupportedChannel(1))));
}

#[test]
fn scenario_no_overlap() {
    match negotiate(&[1], &[2]) {
        Err((client, PeerError::HandshakeFailed(msg))) => {
            assert_eq!(msg, "no overlapping channels");
            assert!(matches!(client, PeerError::Disconnected(_)));
        }
        _ => panic!("handshake should fail"),
    }
}

#[test]
fn scenario_ping() {
    let (mut client, mut server) = negotiate(&[1], &[1]).ok().unwrap();
    client.check_ping().unwrap();
    assert_eq!(server.on_control(control_kind("ping"), Waiting::AnyChannel).unwrap(), ControlStep::ReplyPong);
    assert_eq!(client.on_control(control_kind("pong"), Waiting::Pong).unwrap(), ControlStep::PongArrived);
    assert!(!server.has_buffered(Waiting::AnyChannel));
}

#[test]
fn scenario_graceful_shutdown() {
    let (mut client, mut server) = negotiate(&[1], &[1]).ok().unwrap();
    client.begin_shutdown().unwrap();
    assert_eq!(
        server.on_control(control_kind("shutdown_request"), Waiting::AnyChannel).unwrap(),
        ControlStep::AckThenClose
    );
    let _ = server.finish_remote_shutdown();
    assert!(server.is_closed());
    assert_eq!(
        client.on_control(control_kind("shutdown_ack"), Waiting::ShutdownAck).unwrap(),
        ControlStep::AckArrived
    );
    assert!(client.check_send(1, 1, Ok(())).is_err());
}

#[test]
fn scenario_schema_rejection_continues_session() {
    let mut registry = SchemaRegistry::with_config(RegistryConfig { strict_mode: true, ..RegistryConfig::default() });
    registry
        .register(COMMAND, r#"{"type":"object","properties":{"ok":{"type":"boolean"}},"required":["ok"]}"#)
        .unwrap();
    let (_client, mut server) = negotiate(&[1], &[1]).ok().unwrap();
    let bad = transmit(COMMAND, br#"{"nope":true}"#);
    let verdict = registry.validate_frame(&bad);
    assert!(matches!(
        server.on_frame(bad, Waiting::AnyChannel, verdict),
        Err(PeerError::Schema(SchemaError::ValidationFailed { .. }))
    ));
    assert!(!server.is_closed());
    let good = transmit(COMMAND, br#"{"ok":true}"#);
    let verdict = registry.validate_frame(&good);
    match server.on_frame(good, Waiting::AnyChannel, verdict) {
        Ok(FrameStep::Deliver(f)) => assert_eq!(f.payload.as_ref(), br#"{"ok":true}"#),
        _ => panic!("valid frame should be delivered"),
    }
}

#[test]
fn per_channel_order_survives_selective_receive() {
    let (_client, mut server) = negotiate(&[1, 2], &[1, 2]).ok().unwrap();
    let mut got: Vec<(u16, Vec<u8>)> = Vec::new();
    for (c, p) in [(2u16, &b"a1"[..]), (1, b"b1"), (2, b"a2"), (2, b"a3")] {
        match server.on_frame(transmit(c, p), Waiting::Channel(1), Ok(())).unwrap() {
            FrameStep::Deliver(f) => got.push((f.channel, f.payload.to_vec())),
            FrameStep::Buffered => {}
        }
    }
    while let Some(f) = server.next_buffered(Waiting::AnyChannel) {
        got.push((f.channel, f.payload.to_vec()));
    }
    let on2: Vec<Vec<u8>> = got.iter().filter(|(c, _)| *c == 2).map(|(_, p)| p.clone()).collect();
    assert_eq!(on2, vec![b"a1".to_vec(), b"a2".to_vec(), b"a3".to_vec()]);
}
