use moonlight_web::api_bindings::{PlayerSlot, RoomRole};
use moonlight_web::ipc::PeerId;
use moonlight_web::peer_manager::PeerManager;

#[test]
fn test_gamepad_mapping() {
    let mut manager = PeerManager::new();

    let peer1 = PeerId(1);
    let peer2 = PeerId(2);
    let peer3 = PeerId(3);

    manager.add_peer(peer1, PlayerSlot(0), 10, 10);
    manager.add_peer(peer2, PlayerSlot(1), 10, 10);
    manager.add_peer(peer3, PlayerSlot(2), 10, 10);

    // Each player's gamepad 0 maps to their player slot
    assert_eq!(manager.map_gamepad_id(peer1, 0), Some(0));
    assert_eq!(manager.map_gamepad_id(peer2, 0), Some(1));
    assert_eq!(manager.map_gamepad_id(peer3, 0), Some(2));

    // Non-zero gamepad IDs are rejected
    assert_eq!(manager.map_gamepad_id(peer1, 1), None);
}

#[test]
fn test_keyboard_mouse_access() {
    let mut manager = PeerManager::new();

    let peer1 = PeerId(1);
    let peer2 = PeerId(2);

    manager.add_peer(peer1, PlayerSlot(0), 10, 10);
    manager.add_peer(peer2, PlayerSlot(1), 10, 10);

    // By default, only Player 1 can use keyboard/mouse
    assert!(manager.can_use_keyboard_mouse(peer1));
    assert!(!manager.can_use_keyboard_mouse(peer2));

    // Enable guests keyboard/mouse
    manager.set_guests_keyboard_mouse_enabled(true);
    assert!(manager.can_use_keyboard_mouse(peer1));
    assert!(manager.can_use_keyboard_mouse(peer2));

    // Disable again
    manager.set_guests_keyboard_mouse_enabled(false);
    assert!(manager.can_use_keyboard_mouse(peer1));
    assert!(!manager.can_use_keyboard_mouse(peer2));
}

#[test]
fn spectator_never_gets_keyboard_or_gamepad() {
    let mut manager = PeerManager::new();
    let peer = PeerId(9);
    manager.add_peer_with_role(peer, Some(PlayerSlot(2)), RoomRole::Spectator, 4, 4);
    manager.set_guests_keyboard_mouse_enabled(true);
    assert!(!manager.can_use_keyboard_mouse(peer));
    assert_eq!(manager.get_player_slot(peer), None);
    assert_eq!(manager.map_gamepad_id(peer, 0), None);
}

use moonlight_web::peer_manager::PeerInfo;

#[test]
fn registry_starts_empty() {
    let manager = PeerManager::new();
    assert_eq!(manager.peer_count(), 0);
    assert!(!manager.has_peers());
    assert!(!manager.guests_keyboard_mouse_enabled());
    assert_eq!(manager.peer_ids(), vec![]);
    assert_eq!(manager.get_peer(PeerId(1)), None);
    assert!(!manager.can_use_keyboard_mouse(PeerId(1)));
    assert_eq!(manager.map_gamepad_id(PeerId(1), 0), None);
    assert_eq!(PeerManager::default().peer_count(), 0);
}

#[test]
fn add_peer_is_an_upsert() {
    let mut manager = PeerManager::new();
    manager.add_peer(PeerId(1), PlayerSlot(1), 10, 12);
    assert_eq!(
        manager.get_peer(PeerId(1)),
        Some(&PeerInfo {
            player_slot: Some(PlayerSlot(1)),
            role: RoomRole::Player,
            video_frame_queue_size: 10,
            audio_sample_queue_size: 12,
        })
    );
    manager.add_peer(PeerId(1), PlayerSlot(0), 3, 4);
    assert_eq!(manager.peer_count(), 1);
    assert_eq!(
        manager.get_peer(PeerId(1)),
        Some(&PeerInfo {
            player_slot: Some(PlayerSlot(0)),
            role: RoomRole::Host,
            video_frame_queue_size: 3,
            audio_sample_queue_size: 4,
        })
    );
    assert_eq!(manager.get_peer_queue_sizes(PeerId(1)), Some((3, 4)));
    assert_eq!(manager.get_peer_queue_sizes(PeerId(2)), None);
}

#[test]
fn remove_peer_returns_what_was_known() {
    let mut manager = PeerManager::new();
    manager.add_peer_with_role(PeerId(4), Some(PlayerSlot(3)), RoomRole::Player, 1, 2);
    manager.add_peer(PeerId(5), PlayerSlot(0), 1, 2);
    let mut ids = manager.peer_ids();
    ids.sort_by_key(|id| id.0);
    assert_eq!(ids, vec![PeerId(4), PeerId(5)]);
    assert!(manager.has_peers());
    assert_eq!(
        manager.remove_peer(PeerId(4)),
        Some(PeerInfo {
            player_slot: Some(PlayerSlot(3)),
            role: RoomRole::Player,
            video_frame_queue_size: 1,
            audio_sample_queue_size: 2,
        })
    );
    assert_eq!(manager.remove_peer(PeerId(4)), None);
    assert_eq!(manager.peer_count(), 1);
    assert_eq!(manager.get_player_slot(PeerId(4)), None);
    assert_eq!(manager.get_player_slot(PeerId(5)), Some(PlayerSlot(0)));
}

#[test]
fn role_change_records_or_clears_the_slot() {
    let mut manager = PeerManager::new();
    manager.add_peer(PeerId(2), PlayerSlot(1), 7, 8);
    assert!(manager.update_peer_role(PeerId(2), RoomRole::Spectator, Some(PlayerSlot(1))));
    assert_eq!(manager.get_player_slot(PeerId(2)), None);
    assert_eq!(manager.map_gamepad_id(PeerId(2), 0), None);
    assert!(manager.update_peer_role(PeerId(2), RoomRole::Player, Some(PlayerSlot(3))));
    assert_eq!(manager.get_player_slot(PeerId(2)), Some(PlayerSlot(3)));
    assert_eq!(manager.map_gamepad_id(PeerId(2), 0), Some(3));
    assert_eq!(manager.get_peer_queue_sizes(PeerId(2)), Some((7, 8)));
    assert!(!manager.update_peer_role(PeerId(3), RoomRole::Player, Some(PlayerSlot(2))));
    assert_eq!(manager.peer_count(), 1);
}

#[test]
fn slot_and_role_helpers() {
    assert_eq!(PlayerSlot::MAX_PLAYERS, 4);
    assert!(PlayerSlot(0).is_host());
    assert!(!PlayerSlot(1).is_host());
    assert!(PlayerSlot(0).can_use_keyboard_mouse());
    assert!(!PlayerSlot(3).can_use_keyboard_mouse());
    assert_eq!(PlayerSlot(3).gamepad_slot(), 3);
    assert!(RoomRole::Host.is_host());
    assert!(!RoomRole::Player.is_host());
    assert!(RoomRole::Spectator.is_spectator());
    assert!(RoomRole::Host.can_input());
    assert!(RoomRole::Player.can_input());
    assert!(!RoomRole::Spectator.can_input());
}
