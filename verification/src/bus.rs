use vstd::prelude::*;
use crate::drivers::display::Display;
use crate::machine::{font_table, initial_memory, word_at};

verus! {

pub const MAX_MEM_SIZE: usize = 4096;

/// Number of bytes of the font at the bottom of memory.
pub const FONT_SIZE: usize = 80;

/// Memory, keypad and display: what the interpreter shares with its driver.
pub struct Bus {
    pub mem: [u8; MAX_MEM_SIZE],
    pub keyboard: [bool; 16],
    pub display: Display,
}

/// The font glyphs as an array.
fn fontset() -> (font: [u8; 80])
    ensures
        font@ == font_table(),
{
    let font: [u8; 80] = [
        0xF0, 0x90, 0x90, 0x90, 0xF0,
        0x20, 0x60, 0x20, 0x20, 0x70,
        0xF0, 0x10, 0xF0, 0x80, 0xF0,
        0xF0, 0x10, 0xF0, 0x10, 0xF0,
        0x90, 0x90, 0xF0, 0x10, 0x10,
        0xF0, 0x80, 0xF0, 0x10, 0xF0,
        0xF0, 0x80, 0xF0, 0x90, 0xF0,
        0xF0, 0x10, 0x20, 0x40, 0x40,
        0xF0, 0x90, 0xF0, 0x90, 0x90,
        0xF0, 0x90, 0xF0, 0x10, 0xF0,
        0xF0, 0x90, 0xF0, 0x90, 0x90,
        0xE0, 0x90, 0xE0, 0x90, 0xE0,
        0xF0, 0x80, 0x80, 0x80, 0xF0,
        0xE0, 0x90, 0x90, 0x90, 0xE0,
        0xF0, 0x80, 0xF0, 0x80, 0xF0,
        0xF0, 0x80, 0xF0, 0x80, 0x80,
    ];
    assert(font@ =~= font_table());
    font
}

impl Bus {
    /// A bus at power-on: the font at the bottom of memory and zero above
    /// it, no key down, a dark display.
    pub fn new() -> (bus: Bus)
        ensures
            bus.mem@ == initial_memory(),
            forall|k: int| 0 <= k < 16 ==> !bus.keyboard@[k],
            forall|p: int| 0 <= p < 2048 ==> !bus.display.bits@[p],
    {
        let font = fontset();
        let mut mem: [u8; MAX_MEM_SIZE] = [0u8; MAX_MEM_SIZE];
        let mut a: usize = 0;
        while a < FONT_SIZE
            invariant
                a <= 80,
                font@ == font_table(),
                forall|b: int| 0 <= b < a ==> mem@[b] == font_table()[b],
                forall|b: int| a <= b < 4096 ==> mem@[b] == 0,
            decreases 80 - a,
        {
            mem[a] = font[a];
            a += 1;
        }
        assert(mem@ =~= initial_memory());
        Bus { mem, keyboard: [false; 16], display: Display::new() }
    }

    /// The instruction word at `pc`: two bytes, the high one first.
    pub fn get_next_byte(&self, pc: usize) -> (word: u16)
        requires
            pc + 1 < 4096,
        ensures
            word == word_at(self.mem@, pc as int),
    {
        let hi: u16 = self.mem[pc] as u16;
        let lo: u16 = self.mem[pc + 1] as u16;
        hi * 256 + lo
    }

    /// Flips key `pos` between up and down.
    pub fn toggle_key(&mut self, pos: usize)
        requires
            pos < 16,
        ensures
            final(self).keyboard@ == old(self).keyboard@.update(pos as int, !old(self).keyboard@[pos as int]),
            final(self).mem == old(self).mem,
            final(self).display == old(self).display,
    {
        let pos_val: bool = self.keyboard[pos];
        self.keyboard[pos] = !pos_val;
    }

    /// Whether key `pos` is down; `None` for a number that names no key.
    pub fn is_key_pressed(&self, pos: usize) -> (pressed: Option<bool>)
        ensures
            pos > 15 ==> pressed is None,
            pos <= 15 ==> pressed == Some(self.keyboard@[pos as int]),
    {
        if pos > 15 {
            return None;
        }
        Some(self.keyboard[pos])
    }
}

} // verus!
