use gameboy::controller::{Button, Controller};

#[test]
fn released_buttons_read_as_ones() {
    let mut pad = Controller::new();
    assert_eq!(pad.read(), 0x3f);
    pad.write(0x20);
    assert_eq!(pad.read(), 0x1f);
    pad.write(0x10);
    assert_eq!(pad.read(), 0x2f);
    pad.write(0x30);
    assert_eq!(pad.read(), 0x00);
}

#[test]
fn a_pressed_direction_clears_its_line() {
    let mut pad = Controller::new();
    pad.write(0x20);
    pad.set(Button::Right, true);
    assert_eq!(pad.read(), 0x1e);
    pad.set(Button::Left, true);
    assert_eq!(pad.read(), 0x1c);
    pad.set(Button::Up, true);
    assert_eq!(pad.read(), 0x18);
    pad.set(Button::Down, true);
    assert_eq!(pad.read(), 0x10);
    pad.set(Button::Down, false);
    assert_eq!(pad.read(), 0x18);
}

#[test]
fn a_pressed_action_button_clears_its_line() {
    let mut pad = Controller::new();
    pad.write(0x10);
    pad.set(Button::A, true);
    assert_eq!(pad.read(), 0x2e);
    pad.set(Button::B, true);
    assert_eq!(pad.read(), 0x2c);
    pad.set(Button::Select, true);
    assert_eq!(pad.read(), 0x28);
    pad.set(Button::Start, true);
    assert_eq!(pad.read(), 0x20);
}

#[test]
fn with_no_select_bit_a_line_is_low_only_if_both_buttons_are_down() {
    let mut pad = Controller::new();
    pad.write(0x00);
    pad.set(Button::A, true);
    assert_eq!(pad.read(), 0x3f);
    pad.set(Button::Right, true);
    assert_eq!(pad.read(), 0x3e);
}

#[test]
fn only_a_press_of_a_released_button_raises_the_interrupt() {
    let mut pad = Controller::new();
    assert!(!pad.get_interrupt_status());
    pad.set(Button::Start, false);
    assert!(!pad.get_interrupt_status());
    pad.set(Button::Start, true);
    assert!(pad.get_interrupt_status());
    assert!(!pad.get_interrupt_status());
    pad.set(Button::Start, true);
    assert!(!pad.get_interrupt_status());
    pad.set(Button::Start, false);
    assert!(!pad.get_interrupt_status());
    pad.set(Button::Start, true);
    assert!(pad.get_interrupt_status());
    assert!(!pad.get(Button::Start));
    assert!(pad.get(Button::Select));
}
