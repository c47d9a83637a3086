use moonlight_web::api_bindings::{
    LogMessageType, PlayerSlot, RoomRole, RtcIceServer, StreamCapabilities, StreamClientMessage,
    StreamColorspace, StreamServerMessage, TransportType,
};
use moonlight_web::config::{LevelFilter, WebRtcConfig};
use moonlight_web::host::{AppId, HostId, StorageHostPairInfo};
use moonlight_web::ipc::{PeerId, ServerIpcMessage, StreamerConfig, StreamerIpcMessage};
use moonlight_web::room::{Delivery, Room, StreamState};
use moonlight_web::server::{
    accept_first_message, first_frame, greet_streamer, init_failure_message, join_refusal_message,
    join_room, on_client_disconnect, on_client_frame, on_streamer_closed, on_streamer_message,
    open_room, stream_state_message, Acceptance, ClientFrame, Downlink, FirstFrame, FrameOutcome,
    Greeting, InitFailure, JoinRefusal, PeerSession, WsFrame, GUEST_QUEUE_SIZE,
};

fn config() -> StreamerConfig {
    StreamerConfig { webrtc: WebRtcConfig::default(), log_level: LevelFilter::Warn }
}

fn pair_info() -> StorageHostPairInfo {
    StorageHostPairInfo {
        client_private_key: "private".to_string(),
        client_certificate: "client".to_string(),
        server_certificate: "server".to_string(),
    }
}

fn room() -> Room {
    Room::new("ABCDEF".to_string(), 7, 42, "Desktop".to_string())
}

fn greet(room: &mut Room) -> Greeting {
    greet_streamer(
        room,
        config(),
        "10.0.0.2".to_string(),
        47989,
        "unique".to_string(),
        pair_info(),
        AppId(42),
        PeerId(1),
        4,
        4,
    )
}

/// A room with its host (peer 1) and its streamer.
fn hosted() -> (Room, PeerSession) {
    let mut room = room();
    open_room(&mut room, PeerId(1), 4, 4);
    let greeting = greet(&mut room);
    (room, greeting.session)
}

fn snapshot() -> StreamState {
    StreamState {
        capabilities: StreamCapabilities { touch: true },
        format: 1,
        width: 1920,
        height: 1080,
        fps: 60,
        audio_sample_rate: 48_000,
        audio_channel_count: 2,
        audio_streams: 1,
        audio_coupled_streams: 1,
        audio_samples_per_frame: 240,
        audio_mapping: [0, 1, 0, 0, 0, 0, 0, 0],
    }
}

fn servers() -> Vec<RtcIceServer> {
    vec![RtcIceServer {
        is_default: false,
        urls: vec!["stun:example.org:3478".to_string()],
        username: "user".to_string(),
        credential: "secret".to_string(),
    }]
}

#[test]
fn first_frame_must_be_a_text() {
    assert_eq!(
        first_frame(Some(WsFrame::Text("{}".to_string()))),
        FirstFrame::Read("{}".to_string())
    );
    assert_eq!(first_frame(Some(WsFrame::Binary(vec![1]))), FirstFrame::Abandon);
    assert_eq!(first_frame(Some(WsFrame::Other)), FirstFrame::Skip);
    assert_eq!(first_frame(Some(WsFrame::Close)), FirstFrame::Skip);
    assert_eq!(first_frame(None), FirstFrame::Abandon);
}

#[test]
fn first_message_must_open_or_join_a_room() {
    assert_eq!(
        accept_first_message(Some(StreamClientMessage::Init {
            host_id: 7,
            app_id: 42,
            video_frame_queue_size: 4,
            audio_sample_queue_size: 5,
        })),
        Acceptance::Init {
            host_id: HostId(7),
            app_id: AppId(42),
            video_frame_queue_size: 4,
            audio_sample_queue_size: 5,
        }
    );
    assert_eq!(
        accept_first_message(Some(StreamClientMessage::JoinRoom {
            room_id: "ABCDEF".to_string(),
            player_name: Some("Bob".to_string()),
            video_frame_queue_size: 4,
            audio_sample_queue_size: 4,
        })),
        Acceptance::JoinRoom {
            room_id: "ABCDEF".to_string(),
            player_name: Some("Bob".to_string()),
            video_frame_queue_size: 4,
            audio_sample_queue_size: 4,
        }
    );
    assert_eq!(accept_first_message(Some(StreamClientMessage::LeaveRoom)), Acceptance::Close);
    assert_eq!(
        accept_first_message(Some(StreamClientMessage::SetTransport(TransportType::WebRTC))),
        Acceptance::Close
    );
    assert_eq!(accept_first_message(None), Acceptance::Abandon);
}

#[test]
fn init_failures_are_fatal_descriptions() {
    let text = |failure| match init_failure_message(failure) {
        StreamServerMessage::DebugLog { message, ty } => {
            assert_eq!(ty, Some(LogMessageType::FatalDescription));
            message
        }
        other => panic!("unexpected message {other:?}"),
    };
    assert_eq!(
        text(InitFailure::HostNotFound),
        "Failed to start stream because the host was not found"
    );
    assert_eq!(
        text(InitFailure::AppNotFound),
        "Failed to start stream because the app was not found"
    );
    assert_eq!(
        text(InitFailure::PairInfo),
        "Failed to start stream because the host is not paired"
    );
    for failure in [
        InitFailure::Host,
        InitFailure::ListApps,
        InitFailure::AddressPort,
        InitFailure::Spawn,
        InitFailure::StreamerStreams,
    ] {
        assert_eq!(text(failure), "Failed to start stream because of a server error");
    }
}

#[test]
fn join_refusals() {
    assert_eq!(
        join_refusal_message(JoinRefusal::RoomNotFound),
        StreamServerMessage::RoomJoinFailed { reason: "Room not found".to_string() }
    );
    assert_eq!(
        join_refusal_message(JoinRefusal::RoomFull),
        StreamServerMessage::RoomJoinFailed { reason: "Room is full".to_string() }
    );
    assert_eq!(
        join_refusal_message(JoinRefusal::Failed),
        StreamServerMessage::RoomJoinFailed { reason: "Failed to join room".to_string() }
    );
    assert_eq!(GUEST_QUEUE_SIZE, 4);
}

#[test]
fn init_join_leave() {
    // The host opens the room.
    let mut room = room();
    let hosted = open_room(&mut room, PeerId(1), 4, 4);
    match hosted.created {
        StreamServerMessage::RoomCreated { room: info, player_slot } => {
            assert_eq!(player_slot, PlayerSlot(0));
            assert_eq!(info.room_id, "ABCDEF");
            assert_eq!(info.host_id, 7);
            assert_eq!(info.app_id, 42);
            assert_eq!(info.players.len(), 1);
            assert!(info.players[0].is_host);
            assert_eq!(info.players[0].name, Some("Host".to_string()));
        }
        other => panic!("unexpected message {other:?}"),
    }
    assert_eq!(
        hosted.launching,
        StreamServerMessage::DebugLog { message: "Launching streamer".to_string(), ty: None }
    );
    let host = room.get_client(PeerId(1)).unwrap();
    assert_eq!(host.role, RoomRole::Host);
    assert_eq!(host.player_slot, Some(PlayerSlot(0)));

    // The streamer is greeted.
    let greeting = greet(&mut room);
    assert_eq!(
        greeting.init,
        ServerIpcMessage::Init {
            config: config(),
            host_address: "10.0.0.2".to_string(),
            host_http_port: 47989,
            client_unique_id: Some("unique".to_string()),
            client_private_key: "private".to_string(),
            client_certificate: "client".to_string(),
            server_certificate: "server".to_string(),
            app_id: 42,
            video_frame_queue_size: 4,
            audio_sample_queue_size: 4,
        }
    );
    assert_eq!(
        greeting.host_connected,
        ServerIpcMessage::PeerConnected {
            peer_id: PeerId(1),
            player_slot: Some(PlayerSlot(0)),
            role: RoomRole::Host,
            video_frame_queue_size: 4,
            audio_sample_queue_size: 4,
        }
    );
    assert_eq!(greeting.session.peer_id(), PeerId(1));
    assert_eq!(greeting.session.player_slot(), Some(PlayerSlot(0)));
    assert_eq!(greeting.session.role(), RoomRole::Host);
    assert!(room.has_ipc_sender());

    // A guest joins.
    let joined = join_room(&mut room, PeerId(2), Some("Bob".to_string()), 4, 4).unwrap();
    assert_eq!(joined.peer_id, PeerId(2));
    assert_eq!(joined.player_slot, PlayerSlot(1));
    assert_eq!(joined.replies.len(), 1);
    match &joined.replies[0] {
        StreamServerMessage::RoomJoined { room: info, player_slot } => {
            assert_eq!(*player_slot, PlayerSlot(1));
            assert_eq!(info.players.len(), 2);
            assert_eq!(info.players[1].name, Some("Bob".to_string()));
            assert!(!info.players[1].is_host);
        }
        other => panic!("unexpected message {other:?}"),
    }
    assert_eq!(joined.update.recipients, vec![PeerId(1), PeerId(2)]);
    assert_eq!(
        joined.update.message,
        StreamServerMessage::RoomUpdated { room: room.to_room_info() }
    );
    assert_eq!(
        joined.announce,
        Some(ServerIpcMessage::PeerConnected {
            peer_id: PeerId(2),
            player_slot: Some(PlayerSlot(1)),
            role: RoomRole::Player,
            video_frame_queue_size: 4,
            audio_sample_queue_size: 4,
        })
    );
    let guest = joined.session;
    assert_eq!(guest.peer_id(), PeerId(2));
    assert_eq!(guest.role(), RoomRole::Player);

    // The guest leaves: the room stays.
    let departure = on_client_disconnect(&mut room, guest);
    assert_eq!(
        departure.notify,
        Some(ServerIpcMessage::PeerDisconnected { peer_id: PeerId(2) })
    );
    assert_eq!(
        departure.broadcasts,
        vec![
            Delivery {
                recipients: vec![PeerId(1)],
                message: StreamServerMessage::PlayerLeft { slot: PlayerSlot(1) },
            },
            Delivery {
                recipients: vec![PeerId(1)],
                message: StreamServerMessage::RoomUpdated { room: room.to_room_info() },
            },
        ]
    );
    assert!(!departure.close_room);
    assert_eq!(departure.stop, None);
    assert_eq!(room.peer_ids(), vec![PeerId(1)]);
    assert_eq!(room.next_available_slot(), Some(PlayerSlot(1)));
}

#[test]
fn host_leaves_and_the_room_closes() {
    let (mut room, host) = hosted();
    let guest = join_room(&mut room, PeerId(2), Some("Bob".to_string()), 4, 4).unwrap();
    assert_eq!(guest.session.peer_id(), PeerId(2));
    let departure = on_client_disconnect(&mut room, host);
    assert_eq!(
        departure.notify,
        Some(ServerIpcMessage::PeerDisconnected { peer_id: PeerId(1) })
    );
    assert_eq!(
        departure.broadcasts,
        vec![Delivery { recipients: vec![PeerId(2)], message: StreamServerMessage::RoomClosed }]
    );
    assert!(departure.close_room);
    assert_eq!(departure.stop, Some(ServerIpcMessage::Stop));
}

#[test]
fn last_one_out_closes_the_room() {
    let (mut room, host) = hosted();
    let guest = join_room(&mut room, PeerId(2), None, 4, 4).unwrap().session;
    // The host is taken out by other means; then the guest leaves an empty room.
    room.remove_client(host.peer_id());
    let departure = on_client_disconnect(&mut room, guest);
    assert!(departure.close_room);
    assert_eq!(departure.stop, Some(ServerIpcMessage::Stop));
    assert_eq!(departure.broadcasts.len(), 2);
    assert_eq!(departure.broadcasts[0].recipients, vec![]);
    assert!(room.is_empty());
}

#[test]
fn full_room_refuses_guests() {
    let (mut room, _host) = hosted();
    for peer in 2..5u64 {
        let joined = join_room(&mut room, PeerId(peer), None, 4, 4).unwrap();
        assert_eq!(joined.player_slot, PlayerSlot(peer as u8 - 1));
    }
    let before = room.to_room_info();
    assert_eq!(
        join_room(&mut room, PeerId(5), None, 4, 4).map(|joined| joined.peer_id),
        Err(JoinRefusal::RoomFull)
    );
    assert_eq!(room.to_room_info(), before);
    assert_eq!(room.player_count(), 4);
}

#[test]
fn room_without_streamer_announces_nothing() {
    let mut room = room();
    open_room(&mut room, PeerId(1), 4, 4);
    let joined = join_room(&mut room, PeerId(2), None, 4, 4).unwrap();
    assert_eq!(joined.announce, None);
    assert_eq!(joined.player_slot, PlayerSlot(1));
    assert_eq!(joined.session.peer_id(), PeerId(2));
    assert_eq!(joined.session.player_slot(), Some(PlayerSlot(1)));

    // The streamer hears nothing of a guest that it was never told of.
    assert_eq!(
        on_client_frame(&mut room, &joined.session, ClientFrame::Binary(vec![1])),
        FrameOutcome::Continue { to_streamer: None, broadcast: None }
    );
    assert_eq!(
        on_client_frame(
            &mut room,
            &joined.session,
            ClientFrame::Message(StreamClientMessage::SetTransport(TransportType::WebRTC))
        ),
        FrameOutcome::Continue { to_streamer: None, broadcast: None }
    );

    // When its web socket ends, the guest leaves the room and its slot is free.
    let departure = on_client_disconnect(&mut room, joined.session);
    assert_eq!(departure.notify, None);
    assert_eq!(departure.stop, None);
    assert!(!departure.close_room);
    assert_eq!(departure.broadcasts.len(), 2);
    assert_eq!(room.peer_ids(), vec![PeerId(1)]);
    assert_eq!(room.next_available_slot(), Some(PlayerSlot(1)));
}

#[test]
fn late_joiner_gets_the_snapshot() {
    let (mut room, _host) = hosted();
    // The streamer tells the room of the servers, then that the stream began.
    let setup = on_streamer_message(
        &mut room,
        StreamerIpcMessage::WebSocket(StreamServerMessage::Setup { ice_servers: servers() }),
    );
    assert_eq!(
        setup,
        Downlink::Text(Delivery {
            recipients: vec![PeerId(1)],
            message: StreamServerMessage::Setup { ice_servers: servers() },
        })
    );
    let complete = stream_state_message(snapshot());
    let downlink =
        on_streamer_message(&mut room, StreamerIpcMessage::WebSocket(complete.clone()));
    assert_eq!(
        downlink,
        Downlink::Text(Delivery { recipients: vec![PeerId(1)], message: complete.clone() })
    );
    assert_eq!(room.stream_state(), Some(snapshot()));
    assert_eq!(room.ice_servers(), &Some(servers()));

    let joined = join_room(&mut room, PeerId(2), Some("Late".to_string()), 4, 4).unwrap();
    assert_eq!(joined.replies.len(), 3);
    assert!(matches!(
        joined.replies[0],
        StreamServerMessage::RoomJoined { player_slot: PlayerSlot(1), .. }
    ));
    assert_eq!(joined.replies[1], StreamServerMessage::Setup { ice_servers: servers() });
    assert_eq!(joined.replies[2], complete);
    assert_eq!(
        joined.replies[2],
        StreamServerMessage::ConnectionComplete {
            capabilities: StreamCapabilities { touch: true },
            format: 1,
            width: 1920,
            height: 1080,
            fps: 60,
            audio_sample_rate: 48_000,
            audio_channel_count: 2,
            audio_streams: 1,
            audio_coupled_streams: 1,
            audio_samples_per_frame: 240,
            audio_mapping: [0, 1, 0, 0, 0, 0, 0, 0],
        }
    );
}

#[test]
fn joiner_before_the_stream_gets_the_servers_only() {
    let (mut room, _host) = hosted();
    room.set_ice_servers(servers());
    let joined = join_room(&mut room, PeerId(2), None, 4, 4).unwrap();
    assert_eq!(joined.replies.len(), 2);
    assert_eq!(joined.replies[1], StreamServerMessage::Setup { ice_servers: servers() });
}

#[test]
fn only_the_host_sets_the_guests_keyboard() {
    let (mut room, host) = hosted();
    let guest = join_room(&mut room, PeerId(2), None, 4, 4).unwrap().session;
    let enable = || {
        ClientFrame::Message(StreamClientMessage::SetGuestsKeyboardMouseEnabled { enabled: true })
    };
    assert_eq!(
        on_client_frame(&mut room, &guest, enable()),
        FrameOutcome::Continue { to_streamer: None, broadcast: None }
    );
    assert!(!room.guests_keyboard_mouse_enabled());
    assert_eq!(
        on_client_frame(&mut room, &host, enable()),
        FrameOutcome::Continue {
            to_streamer: Some(ServerIpcMessage::SetGuestsKeyboardMouseEnabled { enabled: true }),
            broadcast: Some(Delivery {
                recipients: vec![PeerId(1), PeerId(2)],
                message: StreamServerMessage::GuestsKeyboardMouseEnabled { enabled: true },
            }),
        }
    );
    assert!(room.guests_keyboard_mouse_enabled());
}

#[test]
fn frames_go_to_the_streamer_under_the_peer() {
    let (mut room, host) = hosted();
    let start = StreamClientMessage::StartStream {
        bitrate: 1,
        packet_size: 2,
        fps: 3,
        width: 4,
        height: 5,
        play_audio_local: false,
        video_supported_formats: 6,
        video_colorspace: StreamColorspace::Rec2020,
        video_color_range_full: true,
    };
    assert_eq!(
        on_client_frame(&mut room, &host, ClientFrame::Message(start.clone())),
        FrameOutcome::Continue {
            to_streamer: Some(ServerIpcMessage::PeerWebSocket {
                peer_id: PeerId(1),
                message: start,
            }),
            broadcast: None,
        }
    );
    assert_eq!(
        on_client_frame(&mut room, &host, ClientFrame::Binary(vec![7, 0, 1])),
        FrameOutcome::Continue {
            to_streamer: Some(ServerIpcMessage::PeerWebSocketTransport {
                peer_id: PeerId(1),
                data: vec![7, 0, 1],
            }),
            broadcast: None,
        }
    );
    assert_eq!(
        on_client_frame(&mut room, &host, ClientFrame::Unreadable),
        FrameOutcome::Continue { to_streamer: None, broadcast: None }
    );
    assert_eq!(
        on_client_frame(&mut room, &host, ClientFrame::Other),
        FrameOutcome::Continue { to_streamer: None, broadcast: None }
    );
    assert_eq!(
        on_client_frame(&mut room, &host, ClientFrame::Message(StreamClientMessage::LeaveRoom)),
        FrameOutcome::Leave
    );
    assert_eq!(on_client_frame(&mut room, &host, ClientFrame::Close), FrameOutcome::Leave);
}

#[test]
fn streamer_messages_are_routed() {
    let (mut room, _host) = hosted();
    join_room(&mut room, PeerId(2), None, 4, 4).unwrap();
    let log =
        || StreamServerMessage::DebugLog { message: "Moonlight Stream".to_string(), ty: None };
    assert_eq!(
        on_streamer_message(&mut room, StreamerIpcMessage::WebSocket(log())),
        Downlink::Text(Delivery { recipients: vec![PeerId(1), PeerId(2)], message: log() })
    );
    assert_eq!(room.stream_state(), None);
    assert_eq!(
        on_streamer_message(
            &mut room,
            StreamerIpcMessage::PeerWebSocket { peer_id: PeerId(2), message: log() }
        ),
        Downlink::Text(Delivery { recipients: vec![PeerId(2)], message: log() })
    );
    assert_eq!(
        on_streamer_message(
            &mut room,
            StreamerIpcMessage::PeerWebSocket { peer_id: PeerId(9), message: log() }
        ),
        Downlink::Nothing
    );
    assert_eq!(
        on_streamer_message(&mut room, StreamerIpcMessage::WebSocketTransport(vec![2, 9])),
        Downlink::Binary { recipients: vec![PeerId(1), PeerId(2)], data: vec![2, 9] }
    );
    assert_eq!(
        on_streamer_message(
            &mut room,
            StreamerIpcMessage::PeerWebSocketTransport { peer_id: PeerId(1), data: vec![3] }
        ),
        Downlink::Binary { recipients: vec![PeerId(1)], data: vec![3] }
    );
    assert_eq!(
        on_streamer_message(
            &mut room,
            StreamerIpcMessage::PeerWebSocketTransport { peer_id: PeerId(9), data: vec![3] }
        ),
        Downlink::Nothing
    );
    assert_eq!(
        on_streamer_message(&mut room, StreamerIpcMessage::PeerReady { peer_id: PeerId(1) }),
        Downlink::Nothing
    );
    assert_eq!(on_streamer_message(&mut room, StreamerIpcMessage::Stop), Downlink::End);
    assert_eq!(on_streamer_closed(&room), vec![PeerId(1), PeerId(2)]);
}

#[test]
fn room_whose_first_slot_is_taken_gets_no_second_host() {
    let (mut room, _host) = hosted();
    let before = room.to_room_info();
    let again = open_room(&mut room, PeerId(5), 4, 4);
    assert_eq!(room.to_room_info(), before);
    assert_eq!(
        again.created,
        StreamServerMessage::RoomCreated { room: before, player_slot: PlayerSlot(0) }
    );
}
