use nes_emu::input::Controller;
use nes_emu::input::ControllerButton;

const ORDER: [ControllerButton; 8] = [
    ControllerButton::A,
    ControllerButton::B,
    ControllerButton::SELECT,
    ControllerButton::START,
    ControllerButton::UP,
    ControllerButton::DOWN,
    ControllerButton::LEFT,
    ControllerButton::RIGHT,
];

#[test]
fn controller_sequence() {
    let mut pad = Controller::new();
    pad.press(ControllerButton::A);
    pad.write(1);
    pad.write(0);
    let reads: Vec<u8> = (0..8).map(|_| pad.read()).collect();
    assert_eq!(reads, vec![1, 0, 0, 0, 0, 0, 0, 0]);
    assert_eq!(pad.read(), 1);
    assert_eq!(pad.read(), 1);
}

#[test]
fn controller_reports_in_order() {
    for held in 0..=255u8 {
        let mut pad = Controller::new();
        for (i, button) in ORDER.iter().enumerate() {
            pad._set_button(*button, held & (0x80 >> i) != 0);
        }
        pad.write(1);
        pad.write(0);
        for i in 0..8 {
            assert_eq!(pad.read(), (held >> (7 - i)) & 1);
        }
        assert_eq!(pad.read(), 1);
    }
}

#[test]
fn controller_strobe_high_returns_a() {
    let mut pad = Controller::new();
    pad.press(ControllerButton::B);
    pad.write(1);
    assert_eq!(pad.read(), 0);
    pad.press(ControllerButton::A);
    assert_eq!(pad.read(), 1);
    assert_eq!(pad.read(), 1);
    pad.release(ControllerButton::A);
    assert_eq!(pad.read(), 0);
}

#[test]
fn controller_latches_on_falling_strobe() {
    let mut pad = Controller::new();
    pad.press(ControllerButton::START);
    pad.write(1);
    pad.write(0);
    // what happens after the latch does not reach the report
    pad.release(ControllerButton::START);
    pad.press(ControllerButton::A);
    let reads: Vec<u8> = (0..8).map(|_| pad.read()).collect();
    assert_eq!(reads, vec![0, 0, 0, 1, 0, 0, 0, 0]);
}

#[test]
fn controller_buttons_are_independent() {
    let mut pad = Controller::new();
    for button in ORDER {
        assert!(!pad._is_pressed(button));
    }
    pad.press(ControllerButton::LEFT);
    pad.press(ControllerButton::B);
    assert!(pad._is_pressed(ControllerButton::LEFT));
    assert!(pad._is_pressed(ControllerButton::B));
    assert!(!pad._is_pressed(ControllerButton::RIGHT));
    pad.release(ControllerButton::LEFT);
    assert!(!pad._is_pressed(ControllerButton::LEFT));
    assert!(pad._is_pressed(ControllerButton::B));
    pad.reset();
    assert!(!pad._is_pressed(ControllerButton::B));
}

#[test]
fn controller_button_bits() {
    let bits: Vec<u8> = ORDER.iter().map(|b| b.bits()).collect();
    assert_eq!(bits, vec![0x80, 0x40, 0x20, 0x10, 0x08, 0x04, 0x02, 0x01]);
}
