//! The sixteen-key hexadecimal keypad.

use vstd::prelude::*;

verus! {

/// One of the sixteen logical keys, named after the hexadecimal digit
/// printed on it. Which physical key stands for which logical key is the
/// host's business.
#[derive(Clone, Copy, Debug, PartialEq, Eq, Structural)]
pub enum Chip8Key {
    Zero,
    One,
    Two,
    Three,
    Four,
    Five,
    Six,
    Seven,
    Eight,
    Nine,
    A,
    B,
    C,
    D,
    E,
    F,
}

impl Chip8Key {
    /// The hexadecimal digit of the key, `0x0` to `0xF`.
    pub open spec fn code(self) -> u8 {
        match self {
            Chip8Key::Zero => 0x0,
            Chip8Key::One => 0x1,
            Chip8Key::Two => 0x2,
            Chip8Key::Three => 0x3,
            Chip8Key::Four => 0x4,
            Chip8Key::Five => 0x5,
            Chip8Key::Six => 0x6,
            Chip8Key::Seven => 0x7,
            Chip8Key::Eight => 0x8,
            Chip8Key::Nine => 0x9,
            Chip8Key::A => 0xA,
            Chip8Key::B => 0xB,
            Chip8Key::C => 0xC,
            Chip8Key::D => 0xD,
            Chip8Key::E => 0xE,
            Chip8Key::F => 0xF,
        }
    }

    /// The hexadecimal digit of the key.
    pub fn index(self) -> (digit: u8)
        ensures
            digit == self.code(),
            digit < 16,
    {
        match self {
            Chip8Key::Zero => 0x0,
            Chip8Key::One => 0x1,
            Chip8Key::Two => 0x2,
            Chip8Key::Three => 0x3,
            Chip8Key::Four => 0x4,
            Chip8Key::Five => 0x5,
            Chip8Key::Six => 0x6,
            Chip8Key::Seven => 0x7,
            Chip8Key::Eight => 0x8,
            Chip8Key::Nine => 0x9,
            Chip8Key::A => 0xA,
            Chip8Key::B => 0xB,
            Chip8Key::C => 0xC,
            Chip8Key::D => 0xD,
            Chip8Key::E => 0xE,
            Chip8Key::F => 0xF,
        }
    }

    /// The key that carries the digit `digit`; `None` when `digit` is not
    /// a hexadecimal digit.
    pub fn from_index(digit: u8) -> (key: Option<Chip8Key>)
        ensures
            match key {
                Some(k) => k.code() == digit,
                None => digit >= 16,
            },
    {
        match digit {
            0x0 => Some(Chip8Key::Zero),
            0x1 => Some(Chip8Key::One),
            0x2 => Some(Chip8Key::Two),
            0x3 => Some(Chip8Key::Three),
            0x4 => Some(Chip8Key::Four),
            0x5 => Some(Chip8Key::Five),
            0x6 => Some(Chip8Key::Six),
            0x7 => Some(Chip8Key::Seven),
            0x8 => Some(Chip8Key::Eight),
            0x9 => Some(Chip8Key::Nine),
            0xA => Some(Chip8Key::A),
            0xB => Some(Chip8Key::B),
            0xC => Some(Chip8Key::C),
            0xD => Some(Chip8Key::D),
            0xE => Some(Chip8Key::E),
            0xF => Some(Chip8Key::F),
            _ => None,
        }
    }
}

/// The lowest digit at or above `from` whose key is down in `keys`, if
/// there is one.
pub open spec fn first_pressed_from(keys: Seq<bool>, from: int) -> Option<int>
    decreases keys.len() - from,
{
    if from < 0 || from >= keys.len() {
        None
    } else if keys[from] {
        Some(from)
    } else {
        first_pressed_from(keys, from + 1)
    }
}

/// The lowest digit whose key is down in `keys`, if any key is down.
pub open spec fn first_pressed(keys: Seq<bool>) -> Option<int> {
    first_pressed_from(keys, 0)
}

/// `first_pressed_from` finds a key that is down, skips only keys that are
/// up, and finds nothing only when every key from `from` on is up.
pub proof fn lemma_first_pressed_from(keys: Seq<bool>, from: int)
    requires
        0 <= from <= keys.len(),
    ensures
        match first_pressed_from(keys, from) {
            Some(k) => from <= k < keys.len() && keys[k] && forall|j: int| from <= j < k ==> !keys[j],
            None => forall|j: int| from <= j < keys.len() ==> !keys[j],
        },
    decreases keys.len() - from,
{
    if from < keys.len() && !keys[from] {
        lemma_first_pressed_from(keys, from + 1);
    }
}

/// Pressed/released state of the keypad. Its view is a sequence of
/// sixteen booleans indexed by key digit, `true` for a key that is down.
pub struct Keyboard {
    keys: [bool; 16],
}

impl View for Keyboard {
    type V = Seq<bool>;

    closed spec fn view(&self) -> Seq<bool> {
        self.keys@
    }
}

impl Keyboard {
    /// A keypad with every key released.
    pub fn new() -> (kb: Keyboard)
        ensures
            kb@ == Seq::new(16, |k: int| false),
    {
        Keyboard { keys: [false; 16] }
    }

    /// The view always has one entry per key.
    pub proof fn lemma_len(&self)
        ensures
            self@.len() == 16,
    {
    }

    /// Marks `key` as down.
    pub fn press(&mut self, key: Chip8Key)
        ensures
            final(self)@ == old(self)@.update(key.code() as int, true),
    {
        let k = key.index() as usize;
        self.keys[k] = true;
    }

    /// Marks `key` as up.
    pub fn release(&mut self, key: Chip8Key)
        ensures
            final(self)@ == old(self)@.update(key.code() as int, false),
    {
        let k = key.index() as usize;
        self.keys[k] = false;
    }

    /// Whether `key` is down.
    pub fn is_pressed(&self, key: Chip8Key) -> (down: bool)
        ensures
            down == self@[key.code() as int],
    {
        self.keys[key.index() as usize]
    }

    /// Whether the key with the digit `digit % 16` is down.
    pub fn is_digit_pressed(&self, digit: u8) -> (down: bool)
        ensures
            down == self@[digit as int % 16],
    {
        self.keys[(digit % 16) as usize]
    }

    /// The digit of the lowest key that is down, if any key is down.
    pub fn pressed_digit(&self) -> (digit: Option<u8>)
        ensures
            match digit {
                Some(d) => first_pressed(self@) == Some(d as int) && d < 16 && self@[d as int]
                    && forall|j: int| 0 <= j < d ==> !self@[j],
                None => first_pressed(self@) is None && forall|j: int| 0 <= j < 16 ==> !self@[j],
            },
    {
        let mut k: u8 = 0;
        while k < 16
            invariant
                k <= 16,
                first_pressed(self@) == first_pressed_from(self@, k as int),
            decreases 16 - k,
        {
            if self.keys[k as usize] {
                proof {
                    lemma_first_pressed_from(self@, 0);
                }
                return Some(k);
            }
            k = k + 1;
        }
        proof {
            lemma_first_pressed_from(self@, 0);
        }
        None
    }

    /// The lowest key that is down, if any key is down.
    pub fn pressed_key(&self) -> (key: Option<Chip8Key>)
        ensures
            match key {
                Some(k) => first_pressed(self@) == Some(k.code() as int) && self@[k.code() as int]
                    && forall|j: int| 0 <= j < k.code() ==> !self@[j],
                None => first_pressed(self@) is None && forall|j: int| 0 <= j < 16 ==> !self@[j],
            },
    {
        match self.pressed_digit() {
            Some(d) => Chip8Key::from_index(d),
            None => None,
        }
    }
}

} // verus!
