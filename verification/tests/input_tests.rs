use nes_emulator::input::{Button, Controller, KEY_A, KEY_D, KEY_J, KEY_K, KEY_LSHIFT, KEY_RETURN, KEY_S, KEY_SPACE, KEY_TAB, KEY_UP, KEY_W, KEY_X, KEY_Z};

fn read_eight(c: &mut Controller) -> Vec<u8> {
    (0..8).map(|_| c.get_input()).collect()
}

#[test]
fn serial_report_order() {
    let mut c = Controller::new();
    c.press(KEY_K); // A
    c.press(KEY_W); // Up
    c.write_strobe(1);
    c.write_strobe(0);
    assert_eq!(read_eight(&mut c), vec![1, 0, 0, 0, 1, 0, 0, 0]);
    // after eight reads the port reports 1
    assert_eq!(c.get_input(), 1);
    assert_eq!(c.get_input(), 1);
}

#[test]
fn every_button_has_its_bit() {
    let mut c = Controller::new();
    for key in [KEY_X, KEY_Z, KEY_TAB, KEY_SPACE, KEY_UP, KEY_S, KEY_A, KEY_D] {
        c.press(key);
    }
    c.write_strobe(1);
    c.write_strobe(0);
    assert_eq!(read_eight(&mut c), vec![1; 8]);
}

#[test]
fn strobe_held_keeps_reporting_a() {
    let mut c = Controller::new();
    c.press(KEY_X);
    c.write_strobe(1);
    assert_eq!(c.get_input(), 1);
    assert_eq!(c.get_input(), 1);
    c.release(KEY_X);
    assert_eq!(c.get_input(), 0);
}

#[test]
fn release_undoes_press() {
    let mut c = Controller::new();
    c.press(KEY_J);
    assert!(c.b);
    c.release(KEY_Z);
    assert!(!c.b);
    c.press(KEY_LSHIFT);
    c.press(KEY_RETURN);
    c.release(KEY_LSHIFT);
    assert!(!c.select);
    assert!(c.start);
}

#[test]
fn unknown_keys_are_ignored() {
    let mut c = Controller::new();
    c.press(0x71); // 'q'
    c.write_strobe(1);
    c.write_strobe(0);
    assert_eq!(read_eight(&mut c), vec![0; 8]);
}

#[test]
fn key_mapping() {
    assert_eq!(Controller::button_for_key(KEY_W), Some(Button::Up));
    assert_eq!(Controller::button_for_key(KEY_K), Some(Button::A));
    assert_eq!(Controller::button_for_key(KEY_J), Some(Button::B));
    assert_eq!(Controller::button_for_key(KEY_TAB), Some(Button::Select));
    assert_eq!(Controller::button_for_key(KEY_SPACE), Some(Button::Start));
    assert_eq!(Controller::button_for_key(1), None);
}
