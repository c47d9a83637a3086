use moonlight_web::gamepads::{ActiveGamepads, MAX_GAMEPADS};

#[test]
fn from_id_sets_one_bit() {
    assert_eq!(ActiveGamepads::from_id(0), Some(ActiveGamepads { bits: 0b1 }));
    assert_eq!(ActiveGamepads::from_id(2), Some(ActiveGamepads { bits: 0b100 }));
    assert_eq!(ActiveGamepads::from_id(15), Some(ActiveGamepads { bits: 0x8000 }));
}

#[test]
fn from_id_refuses_what_is_no_gamepad() {
    assert_eq!(MAX_GAMEPADS, 16);
    assert_eq!(ActiveGamepads::from_id(16), None);
    assert_eq!(ActiveGamepads::from_id(255), None);
}

#[test]
fn insert_remove_contains() {
    let mut active = ActiveGamepads::empty();
    assert_eq!(active.bits, 0);
    let two = ActiveGamepads::from_id(2).unwrap();
    let five = ActiveGamepads::from_id(5).unwrap();
    assert!(!active.contains(two));
    active.insert(two);
    active.insert(five);
    assert_eq!(active.bits, 0b100100);
    assert!(active.contains(two));
    assert!(active.contains(five));
    active.remove(two);
    assert_eq!(active.bits, 0b100000);
    assert!(!active.contains(two));
    active.remove(two);
    assert_eq!(active.bits, 0b100000);
}
