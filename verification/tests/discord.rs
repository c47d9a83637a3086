use moonlight_web::discord::{discord_room, DiscordInstanceManager, DiscordRoom};

#[test]
fn instance_keeps_its_room() {
    let mut manager = DiscordInstanceManager::new();
    assert_eq!(manager.get_room_id("i-1"), None);
    assert_eq!(
        discord_room(&manager, "i-1"),
        DiscordRoom::Create { app_name: "Discord Activity".to_string() }
    );
    manager.register_instance("i-1".to_string(), "ROOM01".to_string());
    manager.register_instance("i-2".to_string(), "ROOM02".to_string());
    assert_eq!(manager.get_room_id("i-1"), Some("ROOM01".to_string()));
    assert_eq!(manager.get_room_id("i-2"), Some("ROOM02".to_string()));
    assert_eq!(discord_room(&manager, "i-2"), DiscordRoom::Existing("ROOM02".to_string()));
    // A new note takes the place of the old.
    manager.register_instance("i-1".to_string(), "ROOM03".to_string());
    assert_eq!(manager.get_room_id("i-1"), Some("ROOM03".to_string()));
}

#[test]
fn notes_are_struck_by_instance_and_by_room() {
    let mut manager = DiscordInstanceManager::default();
    manager.register_instance("i-1".to_string(), "ROOM01".to_string());
    manager.register_instance("i-2".to_string(), "ROOM02".to_string());
    manager.register_instance("i-3".to_string(), "ROOM01".to_string());
    manager.remove_instance("i-2");
    manager.remove_instance("i-9");
    assert_eq!(manager.get_room_id("i-2"), None);
    assert_eq!(manager.get_room_id("i-1"), Some("ROOM01".to_string()));
    manager.register_instance("i-2".to_string(), "ROOM02".to_string());
    manager.remove_room("ROOM01");
    assert_eq!(manager.get_room_id("i-1"), None);
    assert_eq!(manager.get_room_id("i-3"), None);
    assert_eq!(manager.get_room_id("i-2"), Some("ROOM02".to_string()));
    manager.remove_room("NOROOM");
    assert_eq!(manager.get_room_id("i-2"), Some("ROOM02".to_string()));
}
