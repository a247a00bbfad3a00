use chip8::keyboard::Chip8Keyboard;

#[test]
fn initial_key_state_is_false() {
    let keyboard = Chip8Keyboard::new();
    for i in 0..0xF {
        assert_eq!(keyboard.is_key_pressed(i), false);
    }
}

#[test]
fn key_pressed_event() {
    let mut keyboard = Chip8Keyboard::new();
    keyboard.key_pressed(0);
    assert_eq!(keyboard.is_key_pressed(0), true);
    for i in 1..0xF {
        assert_eq!(keyboard.is_key_pressed(i), false);
    }
}

#[test]
fn key_released_event() {
    let mut keyboard = Chip8Keyboard::new();
    keyboard.key_pressed(0);
    keyboard.key_released(0);
    for i in 0..0xF {
        assert_eq!(keyboard.is_key_pressed(i), false);
    }
}

#[test]
fn releasing_one_key_keeps_the_others() {
    let mut keyboard = Chip8Keyboard::new();
    keyboard.key_pressed(3);
    keyboard.key_pressed(7);
    keyboard.key_released(3);
    assert_eq!(keyboard.is_key_pressed(3), false);
    assert_eq!(keyboard.is_key_pressed(7), true);
}
