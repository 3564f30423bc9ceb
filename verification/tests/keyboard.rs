use chip8::keyboard::{Chip8Key, Keyboard};

const KEYS: [Chip8Key; 16] = [
    Chip8Key::Zero,
    Chip8Key::One,
    Chip8Key::Two,
    Chip8Key::Three,
    Chip8Key::Four,
    Chip8Key::Five,
    Chip8Key::Six,
    Chip8Key::Seven,
    Chip8Key::Eight,
    Chip8Key::Nine,
    Chip8Key::A,
    Chip8Key::B,
    Chip8Key::C,
    Chip8Key::D,
    Chip8Key::E,
    Chip8Key::F,
];

#[test]
fn keys_carry_their_digits() {
    for (digit, key) in KEYS.iter().enumerate() {
        assert_eq!(key.index() as usize, digit);
        assert_eq!(Chip8Key::from_index(digit as u8), Some(*key));
    }
}

#[test]
fn digits_above_f_name_no_key() {
    for digit in 16..=255u8 {
        assert_eq!(Chip8Key::from_index(digit), None);
    }
}

#[test]
fn new_keyboard_has_every_key_up() {
    let keyboard = Keyboard::new();
    for key in KEYS {
        assert!(!keyboard.is_pressed(key));
    }
    assert_eq!(keyboard.pressed_key(), None);
    assert_eq!(keyboard.pressed_digit(), None);
}

#[test]
fn press_and_release_change_one_key() {
    let mut keyboard = Keyboard::new();
    keyboard.press(Chip8Key::Five);
    for key in KEYS {
        assert_eq!(keyboard.is_pressed(key), key == Chip8Key::Five);
    }
    keyboard.press(Chip8Key::E);
    keyboard.release(Chip8Key::Five);
    for key in KEYS {
        assert_eq!(keyboard.is_pressed(key), key == Chip8Key::E);
    }
}

#[test]
fn pressing_twice_is_pressing_once() {
    let mut keyboard = Keyboard::new();
    keyboard.press(Chip8Key::Two);
    keyboard.press(Chip8Key::Two);
    assert!(keyboard.is_pressed(Chip8Key::Two));
    keyboard.release(Chip8Key::Two);
    assert!(!keyboard.is_pressed(Chip8Key::Two));
}

#[test]
fn a_key_stays_down_until_it_is_released() {
    let mut keyboard = Keyboard::new();
    keyboard.press(Chip8Key::Nine);
    for _ in 0..10 {
        assert!(keyboard.is_pressed(Chip8Key::Nine));
        assert_eq!(keyboard.pressed_key(), Some(Chip8Key::Nine));
    }
}

#[test]
fn pressed_key_is_the_lowest_one_down() {
    let mut keyboard = Keyboard::new();
    keyboard.press(Chip8Key::F);
    assert_eq!(keyboard.pressed_key(), Some(Chip8Key::F));
    assert_eq!(keyboard.pressed_digit(), Some(0xF));
    keyboard.press(Chip8Key::Three);
    keyboard.press(Chip8Key::B);
    assert_eq!(keyboard.pressed_key(), Some(Chip8Key::Three));
    keyboard.press(Chip8Key::Zero);
    assert_eq!(keyboard.pressed_key(), Some(Chip8Key::Zero));
    keyboard.release(Chip8Key::Zero);
    keyboard.release(Chip8Key::Three);
    assert_eq!(keyboard.pressed_key(), Some(Chip8Key::B));
}

#[test]
fn digit_queries_take_the_low_digit() {
    let mut keyboard = Keyboard::new();
    keyboard.press(Chip8Key::Four);
    assert!(keyboard.is_digit_pressed(0x04));
    assert!(keyboard.is_digit_pressed(0x14));
    assert!(keyboard.is_digit_pressed(0xF4));
    assert!(!keyboard.is_digit_pressed(0x05));
    assert!(!keyboard.is_digit_pressed(0x40));
}
