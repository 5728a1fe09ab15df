use fe2io::volume::{pick_hotkey, step_down, step_up, Hotkey, VolumeKeys};

#[test]
fn step_up_caps_at_full_volume() {
    assert_eq!(step_up(98), 100);
    assert_eq!(step_up(100), 100);
    assert_eq!(step_up(70), 75);
}

#[test]
fn step_down_floors_at_zero() {
    assert_eq!(step_down(3), 0);
    assert_eq!(step_down(0), 0);
    assert_eq!(step_down(70), 65);
}

#[test]
fn new_caps_start_volume() {
    assert_eq!(VolumeKeys::new(250).volume(), 100);
    assert_eq!(VolumeKeys::new(70).volume(), 70);
}

#[test]
fn volume_stays_in_range_over_many_presses() {
    let mut keys = VolumeKeys::new(98);
    assert_eq!(keys.press(Hotkey::VolumeUp), 100);
    for _ in 0..30 {
        let v = keys.press(Hotkey::VolumeUp);
        assert!(v <= 100);
    }
    for _ in 0..30 {
        let v = keys.press(Hotkey::VolumeDown);
        assert!(v <= 100);
    }
    assert_eq!(keys.volume(), 0);
}

#[test]
fn mute_then_unmute_restores_volume() {
    let mut keys = VolumeKeys::new(65);
    assert_eq!(keys.press(Hotkey::MuteToggle), 0);
    assert!(keys.is_muted());
    assert_eq!(keys.press(Hotkey::MuteToggle), 65);
    assert!(!keys.is_muted());
}

#[test]
fn volume_key_while_muted_unmutes_from_zero() {
    let mut keys = VolumeKeys::new(50);
    keys.press(Hotkey::MuteToggle);
    assert_eq!(keys.press(Hotkey::VolumeUp), 5);
    assert!(!keys.is_muted());
    assert_eq!(keys.press(Hotkey::MuteToggle), 0);
    assert_eq!(keys.press(Hotkey::MuteToggle), 5);
}

#[test]
fn pick_prefers_up_then_down_then_mute() {
    assert_eq!(pick_hotkey(&vec![]), None);
    assert_eq!(pick_hotkey(&vec![Hotkey::MuteToggle, Hotkey::VolumeUp]), Some(Hotkey::VolumeUp));
    assert_eq!(pick_hotkey(&vec![Hotkey::MuteToggle, Hotkey::VolumeDown]), Some(Hotkey::VolumeDown));
    assert_eq!(
        pick_hotkey(&vec![Hotkey::VolumeDown, Hotkey::VolumeUp, Hotkey::MuteToggle]),
        Some(Hotkey::VolumeUp)
    );
    assert_eq!(pick_hotkey(&vec![Hotkey::MuteToggle]), Some(Hotkey::MuteToggle));
}

#[test]
fn poll_without_keys_changes_nothing() {
    let mut keys = VolumeKeys::new(40);
    assert_eq!(keys.poll(&vec![]), None);
    assert_eq!(keys.volume(), 40);
    assert_eq!(keys.poll(&vec![Hotkey::VolumeDown]), Some(35));
    assert_eq!(keys.volume(), 35);
}
