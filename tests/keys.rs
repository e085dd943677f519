use evdev::Key;
use xboxkbd::keys::{
    supported_keys, KeyMapping, BTN_EAST, BTN_MODE, BTN_SELECT, BTN_SOUTH, BTN_START, KEY_DELETE,
    KEY_DOWN, KEY_ENTER, KEY_LEFT, KEY_LEFTCTRL, KEY_LEFTMETA, KEY_LEFTSHIFT, KEY_RIGHT, KEY_UP,
};

#[test]
fn key_codes_match_the_input_subsystem() {
    assert_eq!(KEY_ENTER, Key::KEY_ENTER.code());
    assert_eq!(KEY_LEFTCTRL, Key::KEY_LEFTCTRL.code());
    assert_eq!(KEY_LEFTSHIFT, Key::KEY_LEFTSHIFT.code());
    assert_eq!(KEY_LEFTMETA, Key::KEY_LEFTMETA.code());
    assert_eq!(KEY_DELETE, Key::KEY_DELETE.code());
    assert_eq!(KEY_UP, Key::KEY_UP.code());
    assert_eq!(KEY_DOWN, Key::KEY_DOWN.code());
    assert_eq!(KEY_LEFT, Key::KEY_LEFT.code());
    assert_eq!(KEY_RIGHT, Key::KEY_RIGHT.code());
    assert_eq!(BTN_SOUTH, Key::BTN_SOUTH.code());
    assert_eq!(BTN_EAST, Key::BTN_EAST.code());
    assert_eq!(BTN_SELECT, Key::BTN_SELECT.code());
    assert_eq!(BTN_START, Key::BTN_START.code());
    assert_eq!(BTN_MODE, Key::BTN_MODE.code());
}

#[test]
fn nine_keys_are_advertised() {
    let keys = supported_keys();
    assert_eq!(keys.len(), 9);
    for k in [KEY_ENTER, KEY_LEFTMETA, KEY_LEFTSHIFT, KEY_LEFTCTRL, KEY_DELETE, KEY_UP, KEY_LEFT, KEY_RIGHT, KEY_DOWN] {
        assert!(keys.contains(&k));
    }
}

#[test]
fn default_mapping_targets_are_advertised() {
    let keys = supported_keys();
    let m = KeyMapping::controller_default();
    assert_eq!(m.pairs.len(), 5);
    for (_, to) in m.pairs.iter() {
        assert!(keys.contains(to));
    }
}
