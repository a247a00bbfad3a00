//! The 16-key input device: one boolean flag per key, set while the key is
//! held down.

use vstd::prelude::*;

verus! {

broadcast use vstd::array::group_array_axioms;

/// The state of the 16 keys of a CHIP-8 keypad.
#[derive(Clone, Copy)]
pub struct Chip8Keyboard {
    pub keys: [bool; 16],
}

impl Chip8Keyboard {
    /// No key is pressed.
    pub open spec fn all_released(self) -> bool {
        forall|k: int| 0 <= k < 16 ==> !self.keys@[k]
    }

    pub fn new() -> (kb: Chip8Keyboard)
        ensures
            kb.all_released(),
    {
        Chip8Keyboard { keys: [false; 16] }
    }

    pub fn is_key_pressed(&self, key: u8) -> (b: bool)
        requires
            key < 16,
        ensures
            b == self.keys@[key as int],
    {
        self.keys[key as usize]
    }

    pub fn key_pressed(&mut self, key: u8)
        requires
            key < 16,
        ensures
            final(self).keys@ == old(self).keys@.update(key as int, true),
    {
        self.keys[key as usize] = true;
    }

    pub fn key_released(&mut self, key: u8)
        requires
            key < 16,
        ensures
            final(self).keys@ == old(self).keys@.update(key as int, false),
    {
        self.keys[key as usize] = false;
    }
}

} // verus!
