use moonlight_web::api_bindings::{
    PlayerSlot, RoomInfo, RoomParticipant, RoomPlayer, RoomRole, RtcIceServer, StreamCapabilities,
    StreamServerMessage,
};
use moonlight_web::ipc::{PeerId, ServerIpcMessage};
use moonlight_web::room::{Delivery, Room, RoomClient, StreamState};

fn client(peer: u64, slot: Option<u8>, role: RoomRole, name: &str) -> RoomClient {
    RoomClient {
        peer_id: PeerId(peer),
        player_slot: slot.map(PlayerSlot),
        role,
        player_name: Some(name.to_string()),
        discord_user_id: None,
        discord_avatar: None,
        video_frame_queue_size: 4,
        audio_sample_queue_size: 4,
    }
}

fn room() -> Room {
    Room::new("ABCDEF".to_string(), 7, 42, "Desktop".to_string())
}

fn occupied(room: &Room) -> Vec<u8> {
    room.to_room_info().players.iter().map(|p| p.slot.0).collect()
}

#[test]
fn new_room_is_empty() {
    let room = room();
    assert_eq!(room.room_id(), "ABCDEF");
    assert_eq!(room.host_id(), 7);
    assert_eq!(room.app_id(), 42);
    assert_eq!(room.app_name(), "Desktop");
    assert!(room.is_empty());
    assert!(!room.has_host());
    assert!(!room.guests_keyboard_mouse_enabled());
    assert!(!room.has_ipc_sender());
    assert_eq!(room.ice_servers(), &None);
    assert_eq!(room.stream_state(), None);
    assert_eq!(room.next_available_slot(), Some(PlayerSlot(0)));
    assert_eq!(room.player_count(), 0);
    assert_eq!(room.spectator_count(), 0);
    assert_eq!(
        room.to_room_info(),
        RoomInfo {
            room_id: "ABCDEF".to_string(),
            host_id: 7,
            app_id: 42,
            app_name: "Desktop".to_string(),
            players: vec![],
            max_players: 4,
            participants: vec![],
            spectator_count: 0,
        }
    );
}

#[test]
fn slot_is_taken_while_a_client_sits_in_it() {
    let mut room = room();
    assert!(room.add_client(client(1, Some(0), RoomRole::Host, "Host")));
    assert!(room.add_client(client(2, Some(2), RoomRole::Player, "Bob")));
    assert_eq!(occupied(&room), vec![0, 2]);
    assert_eq!(room.next_available_slot(), Some(PlayerSlot(1)));
    // A slot that is taken is refused, and the room stays as it is.
    assert!(!room.add_client(client(3, Some(2), RoomRole::Player, "Eve")));
    assert_eq!(room.get_client(PeerId(3)), None);
    assert_eq!(room.peer_ids(), vec![PeerId(1), PeerId(2)]);
    assert!(room.remove_client(PeerId(2)).is_some());
    assert_eq!(occupied(&room), vec![0]);
    assert!(room.add_client(client(3, Some(2), RoomRole::Player, "Eve")));
    assert_eq!(occupied(&room), vec![0, 2]);
}

#[test]
fn slot_out_of_range_is_refused() {
    let mut room = room();
    assert!(!room.add_client(client(1, Some(4), RoomRole::Player, "a")));
    assert!(!room.add_client(client(1, Some(255), RoomRole::Player, "a")));
    assert!(room.add_client(client(1, Some(3), RoomRole::Player, "a")));
    assert!(room.is_empty() == false);
}

#[test]
fn room_holds_four_players_and_any_number_of_spectators() {
    let mut room = room();
    assert!(room.add_client(client(1, Some(0), RoomRole::Host, "Host")));
    for slot in 1..4u8 {
        assert_eq!(room.next_available_slot(), Some(PlayerSlot(slot)));
        assert!(room.add_client(client(10 + slot as u64, Some(slot), RoomRole::Player, "p")));
    }
    assert_eq!(room.next_available_slot(), None);
    assert_eq!(room.player_count(), 4);
    for peer in 100..120u64 {
        assert!(room.add_spectator(client(peer, None, RoomRole::Spectator, "s")));
    }
    assert_eq!(room.player_count(), 4);
    assert_eq!(room.spectator_count(), 20);
    for slot in 0..=255u8 {
        assert!(!room.add_client(client(1000 + slot as u64, Some(slot), RoomRole::Player, "x")));
    }
    assert_eq!(room.player_count(), 4);
    assert!(room.has_host());
}

#[test]
fn add_spectator_takes_spectators_only() {
    let mut room = room();
    assert!(!room.add_spectator(client(1, Some(1), RoomRole::Spectator, "a")));
    assert!(!room.add_spectator(client(1, None, RoomRole::Player, "a")));
    assert!(!room.add_spectator(client(1, None, RoomRole::Host, "a")));
    assert!(room.is_empty());
    assert!(room.add_spectator(client(1, None, RoomRole::Spectator, "a")));
    assert_eq!(room.spectator_count(), 1);
    assert_eq!(room.next_available_slot(), Some(PlayerSlot(0)));
}

#[test]
fn add_then_remove_gives_the_room_back() {
    let mut room = room();
    assert!(room.add_client(client(1, Some(0), RoomRole::Host, "Host")));
    assert!(room.add_client(client(2, Some(1), RoomRole::Player, "Bob")));
    let before = room.to_room_info();
    assert!(room.add_client(client(3, Some(3), RoomRole::Player, "Eve")));
    assert_ne!(room.to_room_info(), before);
    assert_eq!(room.remove_client(PeerId(3)), Some(client(3, Some(3), RoomRole::Player, "Eve")));
    assert_eq!(room.to_room_info(), before);
    assert_eq!(room.next_available_slot(), Some(PlayerSlot(2)));
    assert_eq!(room.remove_client(PeerId(3)), None);
    assert_eq!(room.to_room_info(), before);
}

#[test]
fn room_info_lists_players_and_participants_in_order() {
    let mut room = room();
    room.add_client(client(1, Some(0), RoomRole::Host, "Host"));
    room.add_spectator(RoomClient {
        discord_user_id: Some("d-9".to_string()),
        discord_avatar: Some("http://avatar".to_string()),
        ..client(9, None, RoomRole::Spectator, "Zoe")
    });
    room.add_client(RoomClient { player_name: None, ..client(2, Some(1), RoomRole::Player, "") });
    let info = room.to_room_info();
    assert_eq!(
        info.players,
        vec![
            RoomPlayer { slot: PlayerSlot(0), name: Some("Host".to_string()), is_host: true },
            RoomPlayer { slot: PlayerSlot(1), name: None, is_host: false },
        ]
    );
    assert_eq!(
        info.participants,
        vec![
            RoomParticipant {
                slot: Some(PlayerSlot(0)),
                role: RoomRole::Host,
                name: Some("Host".to_string()),
                discord_user_id: None,
                discord_avatar: None,
            },
            RoomParticipant {
                slot: None,
                role: RoomRole::Spectator,
                name: Some("Zoe".to_string()),
                discord_user_id: Some("d-9".to_string()),
                discord_avatar: Some("http://avatar".to_string()),
            },
            RoomParticipant {
                slot: Some(PlayerSlot(1)),
                role: RoomRole::Player,
                name: None,
                discord_user_id: None,
                discord_avatar: None,
            },
        ]
    );
    assert_eq!(info.spectator_count, 1);
    assert_eq!(info.max_players, 4);
    assert_eq!(room.find_by_discord_id("d-9"), Some(PeerId(9)));
    assert_eq!(room.find_by_discord_id("d-8"), None);
    assert_eq!(room.find_by_discord_id(""), None);
}

#[test]
fn client_views() {
    let host = client(1, Some(0), RoomRole::Host, "Host");
    assert!(host.is_player());
    assert!(!host.is_spectator());
    assert_eq!(
        host.to_room_player(),
        Some(RoomPlayer { slot: PlayerSlot(0), name: Some("Host".to_string()), is_host: true })
    );
    let spectator = client(2, None, RoomRole::Spectator, "s");
    assert!(!spectator.is_player());
    assert!(spectator.is_spectator());
    assert_eq!(spectator.to_room_player(), None);
    assert_eq!(spectator.to_participant().role, RoomRole::Spectator);
}

#[test]
fn promote_gives_the_lowest_free_slot() {
    let mut room = room();
    room.add_client(client(1, Some(0), RoomRole::Host, "Host"));
    room.add_client(client(2, Some(2), RoomRole::Player, "Bob"));
    room.add_spectator(client(3, None, RoomRole::Spectator, "Eve"));
    assert_eq!(room.promote_to_player(PeerId(3)), Some(PlayerSlot(1)));
    let eve = room.get_client(PeerId(3)).unwrap();
    assert_eq!(eve.role, RoomRole::Player);
    assert_eq!(eve.player_slot, Some(PlayerSlot(1)));
    assert_eq!(eve.player_name, Some("Eve".to_string()));
    assert_eq!(room.peer_ids(), vec![PeerId(1), PeerId(2), PeerId(3)]);
    assert_eq!(room.next_available_slot(), Some(PlayerSlot(3)));
    assert_eq!(room.spectator_count(), 0);
    // A player is not promoted again, nor is a peer that is not in the room.
    assert_eq!(room.promote_to_player(PeerId(3)), None);
    assert_eq!(room.promote_to_player(PeerId(1)), None);
    assert_eq!(room.promote_to_player(PeerId(99)), None);
    assert_eq!(room.next_available_slot(), Some(PlayerSlot(3)));
}

#[test]
fn promote_needs_a_free_slot() {
    let mut room = room();
    for slot in 0..4u8 {
        room.add_client(client(slot as u64, Some(slot), RoomRole::Player, "p"));
    }
    room.add_spectator(client(9, None, RoomRole::Spectator, "s"));
    assert_eq!(room.promote_to_player(PeerId(9)), None);
    assert_eq!(room.get_client(PeerId(9)).unwrap().role, RoomRole::Spectator);
}

#[test]
fn demote_frees_the_slot_but_not_for_the_host() {
    let mut room = room();
    room.add_client(client(1, Some(0), RoomRole::Host, "Host"));
    room.add_client(client(2, Some(1), RoomRole::Player, "Bob"));
    assert!(!room.demote_to_spectator(PeerId(1)));
    assert_eq!(room.get_client(PeerId(1)).unwrap().role, RoomRole::Host);
    assert!(!room.demote_to_spectator(PeerId(99)));
    assert!(room.demote_to_spectator(PeerId(2)));
    let bob = room.get_client(PeerId(2)).unwrap();
    assert_eq!(bob.role, RoomRole::Spectator);
    assert_eq!(bob.player_slot, None);
    assert_eq!(room.next_available_slot(), Some(PlayerSlot(1)));
    assert_eq!(room.player_count(), 1);
    assert_eq!(room.spectator_count(), 1);
    // A spectator can be made a spectator again; nothing changes.
    assert!(room.demote_to_spectator(PeerId(2)));
    assert_eq!(room.next_available_slot(), Some(PlayerSlot(1)));
}

#[test]
fn guests_keyboard_setting_is_told_to_the_streamer() {
    let mut room = room();
    assert_eq!(room.set_guests_keyboard_mouse_enabled(true), None);
    assert!(room.guests_keyboard_mouse_enabled());
    room.attach_ipc_sender();
    assert!(room.has_ipc_sender());
    assert_eq!(
        room.set_guests_keyboard_mouse_enabled(false),
        Some(ServerIpcMessage::SetGuestsKeyboardMouseEnabled { enabled: false })
    );
    assert!(!room.guests_keyboard_mouse_enabled());
}

#[test]
fn messages_reach_those_in_the_room() {
    let mut room = room();
    room.add_client(client(5, Some(0), RoomRole::Host, "Host"));
    room.add_client(client(3, Some(1), RoomRole::Player, "Bob"));
    assert_eq!(
        room.broadcast(StreamServerMessage::RoomClosed),
        Delivery { recipients: vec![PeerId(5), PeerId(3)], message: StreamServerMessage::RoomClosed }
    );
    assert_eq!(
        room.send_to_peer(PeerId(3), StreamServerMessage::RoomClosed),
        Some(Delivery { recipients: vec![PeerId(3)], message: StreamServerMessage::RoomClosed })
    );
    assert_eq!(room.send_to_peer(PeerId(4), StreamServerMessage::RoomClosed), None);
}

#[test]
fn streamer_hears_of_leaving_only_after_coming() {
    let mut room = room();
    // Without a streamer nothing is told.
    assert_eq!(room.announce_peer(PeerId(1), Some(PlayerSlot(0)), RoomRole::Host, 4, 4), None);
    assert_eq!(room.dismiss_peer(PeerId(1)), None);
    room.attach_ipc_sender();
    assert_eq!(room.dismiss_peer(PeerId(1)), None);
    assert_eq!(
        room.announce_peer(PeerId(1), Some(PlayerSlot(0)), RoomRole::Host, 4, 5),
        Some(ServerIpcMessage::PeerConnected {
            peer_id: PeerId(1),
            player_slot: Some(PlayerSlot(0)),
            role: RoomRole::Host,
            video_frame_queue_size: 4,
            audio_sample_queue_size: 5,
        })
    );
    assert_eq!(room.dismiss_peer(PeerId(2)), None);
    assert_eq!(
        room.dismiss_peer(PeerId(1)),
        Some(ServerIpcMessage::PeerDisconnected { peer_id: PeerId(1) })
    );
    assert_eq!(room.dismiss_peer(PeerId(1)), None);
}

#[test]
fn room_keeps_what_late_joiners_need() {
    let mut room = room();
    let servers = vec![RtcIceServer {
        is_default: false,
        urls: vec!["stun:example.org".to_string()],
        username: "u".to_string(),
        credential: "c".to_string(),
    }];
    room.set_ice_servers(servers);
    assert_eq!(room.ice_servers().as_ref().unwrap()[0].urls, vec!["stun:example.org"]);
    let state = StreamState {
        capabilities: StreamCapabilities { touch: true },
        format: 1,
        width: 2,
        height: 3,
        fps: 4,
        audio_sample_rate: 5,
        audio_channel_count: 6,
        audio_streams: 7,
        audio_coupled_streams: 8,
        audio_samples_per_frame: 9,
        audio_mapping: [1, 2, 3, 4, 5, 6, 7, 8],
    };
    room.set_stream_state(state);
    assert_eq!(room.stream_state(), Some(state));
}

#[test]
fn promoted_spectator_gives_up_a_slot_it_held() {
    let mut room = room();
    room.add_client(client(1, Some(0), RoomRole::Host, "Host"));
    // A participant that was taken in as a spectator with a slot.
    assert!(room.add_client(client(2, Some(1), RoomRole::Spectator, "Odd")));
    assert_eq!(room.next_available_slot(), Some(PlayerSlot(2)));
    assert_eq!(room.promote_to_player(PeerId(2)), Some(PlayerSlot(2)));
    assert_eq!(room.get_client(PeerId(2)).unwrap().player_slot, Some(PlayerSlot(2)));
    assert_eq!(occupied(&room), vec![0, 2]);
    // The slot that it held is free again.
    assert_eq!(room.next_available_slot(), Some(PlayerSlot(1)));
    assert!(room.add_client(client(3, Some(1), RoomRole::Player, "Bob")));
}

#[test]
fn streamer_knows_who_was_announced() {
    let mut room = room();
    room.attach_ipc_sender();
    assert!(!room.is_announced(PeerId(1)));
    room.announce_peer(PeerId(1), Some(PlayerSlot(0)), RoomRole::Host, 4, 4);
    assert!(room.is_announced(PeerId(1)));
    assert!(!room.is_announced(PeerId(2)));
    room.dismiss_peer(PeerId(1));
    assert!(!room.is_announced(PeerId(1)));
}
