//! The keyboard: which key of the host's keyboard stands for which key of
//! the sixteen-key pad.
//!
//! ```text
//!   keyboard                pad
//!   +---+---+---+---+       +---+---+---+---+
//!   | 1 | 2 | 3 | 4 |       | 1 | 2 | 3 | C |
//!   +---+---+---+---+       +---+---+---+---+
//!   | Q | W | E | R |       | 4 | 5 | 6 | D |
//!   +---+---+---+---+       +---+---+---+---+
//!   | A | S | D | F |       | 7 | 8 | 9 | E |
//!   +---+---+---+---+       +---+---+---+---+
//!   | Y | X | C | V |       | A | 0 | B | F |
//!   +---+---+---+---+       +---+---+---+---+
//! ```
//!
//! A key of the keyboard is named by its key code: the code point of the
//! character the key types unshifted.

use vstd::prelude::*;

verus! {

/// The key codes of the sixteen keyboard keys that are mapped, row by row.
pub open spec fn keyboard_layout() -> Seq<i32> {
    seq![
        0x31i32, 0x32i32, 0x33i32, 0x34i32,
        0x71i32, 0x77i32, 0x65i32, 0x72i32,
        0x61i32, 0x73i32, 0x64i32, 0x66i32,
        0x79i32, 0x78i32, 0x63i32, 0x76i32,
    ]
}

/// The keys of the pad, row by row.
pub open spec fn keypad_layout() -> Seq<usize> {
    seq![
        0x1usize, 0x2usize, 0x3usize, 0xCusize,
        0x4usize, 0x5usize, 0x6usize, 0xDusize,
        0x7usize, 0x8usize, 0x9usize, 0xEusize,
        0xAusize, 0x0usize, 0xBusize, 0xFusize,
    ]
}

/// The pad key that the keyboard key with code `keycode` stands for: the
/// one at the same place in the layout. `None` for a key that is not mapped.
pub open spec fn keypad_index(keycode: i32) -> Option<usize> {
    if keyboard_layout().contains(keycode) {
        Some(keypad_layout()[keyboard_layout().index_of(keycode)])
    } else {
        None
    }
}

/// The key at place `place` of the keyboard layout stands for the pad key
/// at the same place.
proof fn lemma_place(place: int)
    requires
        0 <= place < 16,
    ensures
        keypad_index(keyboard_layout()[place]) == Some(keypad_layout()[place]),
{
    let keys = keyboard_layout();
    assert(keys.len() == 16);
    assert(keys.contains(keys[place]));
    let found = keys.index_of(keys[place]);
    assert(0 <= found < 16 && keys[found] == keys[place]);
    assert(found == place);
}

/// Remembers the pad key of the keyboard key that was last reported.
pub struct InputDriver {
    key_pressed: Option<usize>,
}

impl View for InputDriver {
    type V = Option<usize>;

    closed spec fn view(&self) -> Option<usize> {
        self.key_pressed
    }
}

impl InputDriver {
    /// A driver to which no key has been reported.
    pub fn new() -> (driver: Self)
        ensures
            driver@ is None,
    {
        InputDriver { key_pressed: None }
    }

    /// Reports the keyboard key with code `keycode`. The driver then holds
    /// the pad key that it stands for, or nothing if it stands for none.
    pub fn poll_key(&mut self, keycode: i32)
        ensures
            final(self)@ == keypad_index(keycode),
            final(self)@ matches Some(k) ==> k < 16,
    {
        proof {
            lemma_place(0);
            lemma_place(1);
            lemma_place(2);
            lemma_place(3);
            lemma_place(4);
            lemma_place(5);
            lemma_place(6);
            lemma_place(7);
            lemma_place(8);
            lemma_place(9);
            lemma_place(10);
            lemma_place(11);
            lemma_place(12);
            lemma_place(13);
            lemma_place(14);
            lemma_place(15);
        }
        self.key_pressed = match keycode {
            0x31 => Some(0x1),
            0x32 => Some(0x2),
            0x33 => Some(0x3),
            0x34 => Some(0xC),
            0x71 => Some(0x4),
            0x77 => Some(0x5),
            0x65 => Some(0x6),
            0x72 => Some(0xD),
            0x61 => Some(0x7),
            0x73 => Some(0x8),
            0x64 => Some(0x9),
            0x66 => Some(0xE),
            0x79 => Some(0xA),
            0x78 => Some(0x0),
            0x63 => Some(0xB),
            0x76 => Some(0xF),
            _ => None,
        };
    }

    /// The pad key of the keyboard key that was last reported, if it stands
    /// for one.
    pub fn get_key_pressed(&self) -> (key: Option<usize>)
        ensures
            key == self@,
    {
        self.key_pressed
    }
}

impl Default for InputDriver {
    fn default() -> (driver: Self)
        ensures
            driver@ is None,
    {
        Self::new()
    }
}

} // verus!
