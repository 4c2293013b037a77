//! Joypad register tests: held buttons under each row selector.

use gb_rs::joypad::{
    A_BUTTON, B_BUTTON, BUTTONS_FLAG, Button, DOWN_BUTTON, DPAD_FLAG, JOYPAD_REGISTER_ADDRESS,
    Joypad, LEFT_BUTTON, RIGHT_BUTTON, SELECT_BUTTON, START_BUTTON, UP_BUTTON,
};
use gb_rs::memory::Memory;

#[test]
fn joypad_test_up() {
    let mut memory = Memory::new();
    let mut joypad = Joypad::new();

    memory.write_byte(JOYPAD_REGISTER_ADDRESS, !DPAD_FLAG);

    // Pressing some buttons and updating the joypad
    joypad.handle_button(Button::Up, true, &mut memory);
    joypad.update(&mut memory);

    assert_eq!(
        memory.read_byte(JOYPAD_REGISTER_ADDRESS) & 0x0F,
        UP_BUTTON & 0x0F
    );
}

#[test]
fn joypad_test_left() {
    let mut memory = Memory::new();
    let mut joypad = Joypad::new();

    memory.write_byte(JOYPAD_REGISTER_ADDRESS, !DPAD_FLAG);

    // Pressing some buttons and updating the joypad
    joypad.handle_button(Button::Left, true, &mut memory);
    joypad.update(&mut memory);

    assert_eq!(
        memory.read_byte(JOYPAD_REGISTER_ADDRESS) & 0x0F,
        LEFT_BUTTON & 0x0F
    );
}

#[test]
fn joypad_test_right() {
    let mut memory = Memory::new();
    let mut joypad = Joypad::new();

    memory.write_byte(JOYPAD_REGISTER_ADDRESS, !DPAD_FLAG);

    // Pressing some buttons and updating the joypad
    joypad.handle_button(Button::Right, true, &mut memory);
    joypad.update(&mut memory);

    assert_eq!(
        memory.read_byte(JOYPAD_REGISTER_ADDRESS) & 0x0F,
        RIGHT_BUTTON & 0x0F
    );
}

#[test]
fn joypad_test_down() {
    let mut memory = Memory::new();
    let mut joypad = Joypad::new();

    memory.write_byte(JOYPAD_REGISTER_ADDRESS, !DPAD_FLAG);

    // Pressing some buttons and updating the joypad
    joypad.handle_button(Button::Down, true, &mut memory);
    joypad.update(&mut memory);

    assert_eq!(
        memory.read_byte(JOYPAD_REGISTER_ADDRESS) & 0x0F,
        DOWN_BUTTON & 0x0F
    );
}

#[test]
fn joypad_test_a() {
    let mut memory = Memory::new();
    let mut joypad = Joypad::new();

    memory.write_byte(JOYPAD_REGISTER_ADDRESS, !BUTTONS_FLAG);

    // Pressing some buttons and updating the joypad
    joypad.handle_button(Button::A, true, &mut memory);
    joypad.update(&mut memory);

    assert_eq!(
        memory.read_byte(JOYPAD_REGISTER_ADDRESS) & 0x0F,
        A_BUTTON & 0x0F
    );
}

#[test]
fn joypad_test_b() {
    let mut memory = Memory::new();
    let mut joypad = Joypad::new();

    memory.write_byte(JOYPAD_REGISTER_ADDRESS, !BUTTONS_FLAG);

    // Pressing some buttons and updating the joypad
    joypad.handle_button(Button::B, true, &mut memory);
    joypad.update(&mut memory);

    assert_eq!(
        memory.read_byte(JOYPAD_REGISTER_ADDRESS) & 0x0F,
        B_BUTTON & 0x0F
    );
}

#[test]
fn joypad_test_select() {
    let mut memory = Memory::new();
    let mut joypad = Joypad::new();

    memory.write_byte(JOYPAD_REGISTER_ADDRESS, !BUTTONS_FLAG);

    // Pressing some buttons and updating the joypad
    joypad.handle_button(Button::Select, true, &mut memory);
    joypad.update(&mut memory);

    assert_eq!(
        memory.read_byte(JOYPAD_REGISTER_ADDRESS) & 0x0F,
        SELECT_BUTTON & 0x0F
    );
}

#[test]
fn joypad_test_start() {
    let mut memory = Memory::new();
    let mut joypad = Joypad::new();

    memory.write_byte(JOYPAD_REGISTER_ADDRESS, !BUTTONS_FLAG);

    // Pressing some buttons and updating the joypad
    joypad.handle_button(Button::Start, true, &mut memory);
    joypad.update(&mut memory);

    assert_eq!(
        memory.read_byte(JOYPAD_REGISTER_ADDRESS) & 0x0F,
        START_BUTTON & 0x0F
    );
}

#[test]
fn joypad_test_left_down_start() {
    let mut memory = Memory::new();
    let mut joypad = Joypad::new();

    // test combination of buttons
    joypad.handle_button(Button::Left, true, &mut memory);
    joypad.handle_button(Button::Down, true, &mut memory);
    joypad.handle_button(Button::Start, true, &mut memory);

    memory.write_byte(JOYPAD_REGISTER_ADDRESS, !BUTTONS_FLAG);
    joypad.update(&mut memory);

    assert_eq!(
        memory.read_byte(JOYPAD_REGISTER_ADDRESS) & 0x0F,
        START_BUTTON & 0x0F
    );

    memory.write_byte(JOYPAD_REGISTER_ADDRESS, !DPAD_FLAG);
    joypad.update(&mut memory);

    assert_eq!(
        memory.read_byte(JOYPAD_REGISTER_ADDRESS) & 0x0F,
        LEFT_BUTTON & DOWN_BUTTON & 0x0F
    );
}
