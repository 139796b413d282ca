//! The joypad: a row-selected 4-bit matrix over eight keys, read at 0xFF00.
//! Keys are active-low; pressing a key clears its bit.

use vstd::prelude::*;

verus! {

/// The address the joypad answers on.
pub const JOYPAD_ADDR: u16 = 0xff00;

/// One of the eight host keys.
#[derive(Debug, Clone, Copy, PartialEq, Eq, Structural)]
pub enum JoypadKey {
    RIGHT,
    LEFT,
    UP,
    DOWN,
    A,
    B,
    SELECT,
    START,
}

/// Joypad state: the direction row `p14` (Right, Left, Up, Down in bits
/// 0..3), the action row `p15` (A, B, Select, Start in bits 0..3), and the
/// row-select mask last written by the program.
#[derive(Debug, Clone, Copy, PartialEq, Eq, Structural)]
pub struct Joypad {
    pub p14: u8,
    pub p15: u8,
    pub mask: u8,
}

/// The bit a key occupies in its row.
pub open spec fn key_bit(key: JoypadKey) -> u8 {
    match key {
        JoypadKey::RIGHT => 0x01,
        JoypadKey::LEFT => 0x02,
        JoypadKey::UP => 0x04,
        JoypadKey::DOWN => 0x08,
        JoypadKey::A => 0x01,
        JoypadKey::B => 0x02,
        JoypadKey::SELECT => 0x04,
        JoypadKey::START => 0x08,
    }
}

/// Whether a key sits in the direction row (p14) rather than the action row.
pub open spec fn key_is_direction(key: JoypadKey) -> bool {
    match key {
        JoypadKey::RIGHT => true,
        JoypadKey::LEFT => true,
        JoypadKey::UP => true,
        JoypadKey::DOWN => true,
        _ => false,
    }
}

/// What a read of 0xFF00 returns: the selected row, or 0x0F when no single
/// row is selected.
pub open spec fn joypad_read_s(j: Joypad) -> u8 {
    if j.mask == 0x20 {
        j.p14
    } else if j.mask == 0x10 {
        j.p15
    } else {
        0x0f
    }
}

impl Joypad {
    /// Both rows released (all bits high), no row selected.
    pub fn new() -> (r: Joypad)
        ensures
            r == (Joypad { p14: 0x0f, p15: 0x0f, mask: 0x30 }),
    {
        Joypad { p14: 0x0f, p15: 0x0f, mask: 0x30 }
    }

    /// Clears the key's active-low bit in its row.
    pub fn presskey(&mut self, key: JoypadKey)
        ensures
            *final(self) == (if key_is_direction(key) {
                Joypad { p14: old(self).p14 & !key_bit(key), ..*old(self) }
            } else {
                Joypad { p15: old(self).p15 & !key_bit(key), ..*old(self) }
            }),
    {
        match key {
            JoypadKey::RIGHT => self.p14 = self.p14 & !0x01,
            JoypadKey::LEFT => self.p14 = self.p14 & !0x02,
            JoypadKey::UP => self.p14 = self.p14 & !0x04,
            JoypadKey::DOWN => self.p14 = self.p14 & !0x08,
            JoypadKey::A => self.p15 = self.p15 & !0x01,
            JoypadKey::B => self.p15 = self.p15 & !0x02,
            JoypadKey::SELECT => self.p15 = self.p15 & !0x04,
            JoypadKey::START => self.p15 = self.p15 & !0x08,
        }
    }

    /// Sets the key's active-low bit in its row back high.
    pub fn releasekey(&mut self, key: JoypadKey)
        ensures
            *final(self) == (if key_is_direction(key) {
                Joypad { p14: old(self).p14 | key_bit(key), ..*old(self) }
            } else {
                Joypad { p15: old(self).p15 | key_bit(key), ..*old(self) }
            }),
    {
        match key {
            JoypadKey::RIGHT => self.p14 = self.p14 | 0x01,
            JoypadKey::LEFT => self.p14 = self.p14 | 0x02,
            JoypadKey::UP => self.p14 = self.p14 | 0x04,
            JoypadKey::DOWN => self.p14 = self.p14 | 0x08,
            JoypadKey::A => self.p15 = self.p15 | 0x01,
            JoypadKey::B => self.p15 = self.p15 | 0x02,
            JoypadKey::SELECT => self.p15 = self.p15 | 0x04,
            JoypadKey::START => self.p15 = self.p15 | 0x08,
        }
    }

    /// Reads the register: 0x0F with the selected row's bits overlaid.
    pub fn load(&self) -> (r: u8)
        ensures
            r == joypad_read_s(*self),
    {
        match self.mask {
            0x20 => self.p14,
            0x10 => self.p15,
            _ => 0x0f,
        }
    }

    /// Writes the row-select mask.
    pub fn store(&mut self, value: u8)
        ensures
            *final(self) == (Joypad { mask: value, ..*old(self) }),
    {
        self.mask = value;
    }
}

} // verus!
