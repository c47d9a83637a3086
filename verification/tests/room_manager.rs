use moonlight_web::ipc::PeerId;
use moonlight_web::room_manager::{
    generate_room_id, room_id_from_indices, symbol, RoomManager, ROOM_ID_LENGTH,
};

#[test]
fn symbols_are_digits_then_letters() {
    assert_eq!(symbol(0), '0');
    assert_eq!(symbol(9), '9');
    assert_eq!(symbol(10), 'A');
    assert_eq!(symbol(35), 'Z');
}

#[test]
fn room_id_is_made_of_the_drawn_symbols() {
    assert_eq!(room_id_from_indices(&[0, 9, 10, 35, 1, 11]), "09AZ1B");
    assert_eq!(room_id_from_indices(&[10, 11, 12, 13, 14, 15]), "ABCDEF");
    assert_eq!(room_id_from_indices(&[0; 6]), "000000");
}

#[test]
fn generated_room_id_has_six_capitals_or_digits() {
    assert_eq!(ROOM_ID_LENGTH, 6);
    let mut seen = std::collections::HashSet::new();
    for _ in 0..200 {
        let id = generate_room_id();
        assert_eq!(id.chars().count(), 6);
        assert!(id.chars().all(|c| c.is_ascii_digit() || c.is_ascii_uppercase()), "{id}");
        seen.insert(id);
    }
    // Chance decides the names: two hundred draws do not all give the same.
    assert!(seen.len() > 1);
}

#[test]
fn room_is_found_under_its_name() {
    let mut manager: RoomManager<u32> = RoomManager::new();
    assert_eq!(manager.get_room("ABCDEF"), None);
    assert_eq!(manager.create_room("ABCDEF".to_string(), 1), None);
    assert_eq!(manager.create_room("ABC123".to_string(), 2), None);
    assert_eq!(manager.get_room("ABCDEF"), Some(&1));
    assert_eq!(manager.get_room("ABC123"), Some(&2));
    // Names are case sensitive.
    assert_eq!(manager.get_room("abcdef"), None);
    assert_eq!(manager.list_rooms(), vec![&1, &2]);
}

#[test]
fn name_that_is_taken_is_refused() {
    let mut manager: RoomManager<u32> = RoomManager::new();
    assert_eq!(manager.create_room("ABCDEF".to_string(), 1), None);
    assert_eq!(manager.create_room("ABCDEF".to_string(), 2), Some(2));
    assert_eq!(manager.get_room("ABCDEF"), Some(&1));
    assert_eq!(manager.list_rooms(), vec![&1]);
}

#[test]
fn peers_are_noted_for_their_room() {
    let mut manager: RoomManager<u32> = RoomManager::new();
    manager.create_room("ROOM01".to_string(), 1);
    manager.create_room("ROOM02".to_string(), 2);
    manager.register_peer(PeerId(7), "ROOM01");
    manager.register_peer(PeerId(8), "ROOM02");
    manager.register_peer(PeerId(9), "NOROOM");
    assert_eq!(manager.get_peer_room(PeerId(7)), Some(&1));
    assert_eq!(manager.get_peer_room(PeerId(8)), Some(&2));
    assert_eq!(manager.get_peer_room(PeerId(9)), None);
    assert_eq!(manager.get_peer_room(PeerId(10)), None);
    // A new note takes the place of the old.
    manager.register_peer(PeerId(7), "ROOM02");
    assert_eq!(manager.get_peer_room(PeerId(7)), Some(&2));
    assert_eq!(manager.remove_peer(PeerId(7)), Some(&2));
    assert_eq!(manager.get_peer_room(PeerId(7)), None);
    assert_eq!(manager.remove_peer(PeerId(7)), None);
    assert_eq!(manager.remove_peer(PeerId(9)), None);
}

#[test]
fn deleting_a_room_strikes_its_peers() {
    let mut manager: RoomManager<&'static str> = RoomManager::new();
    manager.create_room("ROOM01".to_string(), "one");
    manager.create_room("ROOM02".to_string(), "two");
    manager.register_peer(PeerId(1), "ROOM01");
    manager.register_peer(PeerId(2), "ROOM02");
    manager.register_peer(PeerId(3), "ROOM01");
    assert_eq!(manager.delete_room("ROOM01"), Some("one"));
    assert_eq!(manager.get_room("ROOM01"), None);
    assert_eq!(manager.get_room("ROOM02"), Some(&"two"));
    assert_eq!(manager.list_rooms(), vec![&"two"]);
    // Were the room made anew, its former peers would not be in it.
    manager.create_room("ROOM01".to_string(), "again");
    assert_eq!(manager.get_peer_room(PeerId(1)), None);
    assert_eq!(manager.get_peer_room(PeerId(3)), None);
    assert_eq!(manager.get_peer_room(PeerId(2)), Some(&"two"));
    assert_eq!(manager.delete_room("NOROOM"), None);
    assert_eq!(manager.list_rooms(), vec![&"two", &"again"]);
}

#[test]
fn peer_ids_rise_from_one() {
    let mut manager: RoomManager<u32> = RoomManager::new();
    assert_eq!(manager.generate_peer_id(), PeerId(1));
    assert_eq!(manager.generate_peer_id(), PeerId(2));
    assert_eq!(manager.generate_peer_id(), PeerId(3));
}
