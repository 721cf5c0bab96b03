use chip8::keypad::{handle_keypress, key_index, HostKey, InputEvent};

const LAYOUT: [(HostKey, u8); 16] = [
    (HostKey::Num1, 0x1),
    (HostKey::Num2, 0x2),
    (HostKey::Num3, 0x3),
    (HostKey::Num4, 0xC),
    (HostKey::Q, 0x4),
    (HostKey::W, 0x5),
    (HostKey::E, 0x6),
    (HostKey::R, 0xD),
    (HostKey::A, 0x7),
    (HostKey::S, 0x8),
    (HostKey::D, 0x9),
    (HostKey::F, 0xE),
    (HostKey::Z, 0xA),
    (HostKey::X, 0x0),
    (HostKey::C, 0xB),
    (HostKey::V, 0xF),
];

#[test]
fn every_host_key_has_its_place_on_the_keypad() {
    for (key, index) in LAYOUT {
        assert_eq!(key_index(key), Some(index));
    }
    assert_eq!(key_index(HostKey::Escape), None);
    assert_eq!(key_index(HostKey::Other), None);
}

#[test]
fn the_sixteen_host_keys_cover_the_keypad_once_each() {
    let mut seen = [0u8; 16];
    for (key, _) in LAYOUT {
        seen[key_index(key).unwrap() as usize] += 1;
    }
    assert_eq!(seen, [1u8; 16]);
}

#[test]
fn key_down_holds_and_key_up_releases_one_key() {
    for (key, index) in LAYOUT {
        let mut keys = [false; 16];
        assert!(!handle_keypress(&mut keys, InputEvent::KeyDown(key)));
        let mut expected = [false; 16];
        expected[index as usize] = true;
        assert_eq!(keys, expected);
        // a repeated key-down changes nothing
        assert!(!handle_keypress(&mut keys, InputEvent::KeyDown(key)));
        assert_eq!(keys, expected);
        assert!(!handle_keypress(&mut keys, InputEvent::KeyUp(key)));
        assert_eq!(keys, [false; 16]);
    }
}

#[test]
fn other_keys_stay_as_they_are() {
    let mut keys = [true; 16];
    assert!(!handle_keypress(&mut keys, InputEvent::KeyUp(HostKey::Q)));
    let mut expected = [true; 16];
    expected[4] = false;
    assert_eq!(keys, expected);
    assert!(!handle_keypress(&mut keys, InputEvent::KeyDown(HostKey::Other)));
    assert!(!handle_keypress(&mut keys, InputEvent::KeyUp(HostKey::Other)));
    assert!(!handle_keypress(&mut keys, InputEvent::Other));
    assert_eq!(keys, expected);
}

#[test]
fn quit_and_escape_end_the_program_and_leave_the_keys() {
    let mut keys = [false; 16];
    keys[3] = true;
    let before = keys;
    assert!(handle_keypress(&mut keys, InputEvent::Quit));
    assert!(handle_keypress(&mut keys, InputEvent::KeyDown(HostKey::Escape)));
    assert_eq!(keys, before);
    // releasing escape is no request to end
    assert!(!handle_keypress(&mut keys, InputEvent::KeyUp(HostKey::Escape)));
    assert_eq!(keys, before);
}
