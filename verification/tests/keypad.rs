use lib::keypad::{Button, Joypad, JoypadHandler};

fn pad_with(buttons: &[Button]) -> Joypad {
    let mut pad = Joypad::default();
    for b in buttons {
        pad.buttons[b.slot()] = true;
    }
    pad
}

#[test]
fn nothing_selected_reads_all_ones() {
    let mut handler = JoypadHandler::new();
    handler.update_joypad(pad_with(&[Button::A, Button::Down]));
    assert_eq!(handler.get_register(), 0xFF);
}

#[test]
fn action_buttons_read_low_when_held() {
    let mut handler = JoypadHandler::new();
    handler.set_register(0b0001_0000);
    handler.update_joypad(pad_with(&[Button::A, Button::Start]));
    // bit 0 is A, bit 3 is Start
    assert_eq!(handler.get_register(), 0b1101_0110);
}

#[test]
fn direction_buttons_read_low_when_held() {
    let mut handler = JoypadHandler::new();
    handler.set_register(0b0010_0000);
    handler.update_joypad(pad_with(&[Button::Left, Button::Up]));
    // bit 1 is Left, bit 2 is Up
    assert_eq!(handler.get_register(), 0b1110_1001);
}

#[test]
fn only_the_select_bits_can_be_written() {
    let mut handler = JoypadHandler::new();
    handler.set_register(0x00);
    assert_eq!(handler.get_register() & 0xF0, 0xC0);
    handler.set_register(0xFF);
    assert_eq!(handler.get_register(), 0xFF);
}

#[test]
fn button_slots_follow_the_declaration_order() {
    assert_eq!(Button::A.slot(), 0);
    assert_eq!(Button::Select.slot(), 3);
    assert_eq!(Button::Left.slot(), 7);
}
