//! The mathematical model of a CHIP-8 machine: every register, the memory,
//! the call stack, the keypad and the framebuffer as plain values.

use vstd::prelude::*;

verus! {

/// Width of the display in pixels.
pub const SCREEN_WIDTH: usize = 64;

/// Height of the display in pixels.
pub const SCREEN_HEIGHT: usize = 32;

/// Number of pixels of the display, stored row by row.
pub const SCREEN_SIZE: usize = 2048;

/// Number of bytes of addressable memory.
pub const MEMORY_SIZE: usize = 4096;

/// Number of general registers, `V0` to `VF`.
pub const REGISTER_COUNT: usize = 16;

/// Number of return addresses the call stack can hold.
pub const STACK_SIZE: usize = 16;

/// Number of keys of the keypad.
pub const KEY_COUNT: usize = 16;

/// Address at which programs are loaded and at which execution starts.
pub const START_ADDRESS: u16 = 0x200;

/// Number of bytes of the built-in font: sixteen glyphs of five rows each.
pub const FONT_SIZE: usize = 80;

/// The built-in font. Glyph `d` occupies the five bytes from `5 * d`.
pub const FONT: [u8; 80] = [
    0xF0, 0x90, 0x90, 0x90, 0xF0,
    0x20, 0x60, 0x20, 0x20, 0x70,
    0xF0, 0x10, 0xF0, 0x80, 0xF0,
    0xF0, 0x10, 0xF0, 0x10, 0xF0,
    0x90, 0x90, 0xF0, 0x10, 0x10,
    0xF0, 0x80, 0xF0, 0x10, 0xF0,
    0xF0, 0x80, 0xF0, 0x90, 0xF0,
    0xF0, 0x10, 0x20, 0x40, 0x40,
    0xF0, 0x90, 0xF0, 0x90, 0xF0,
    0xF0, 0x90, 0xF0, 0x10, 0xF0,
    0xF0, 0x90, 0xF0, 0x90, 0x90,
    0xE0, 0x90, 0xE0, 0x90, 0xE0,
    0xF0, 0x80, 0x80, 0x80, 0xF0,
    0xE0, 0x90, 0x90, 0x90, 0xE0,
    0xF0, 0x80, 0xF0, 0x80, 0xF0,
    0xF0, 0x80, 0xF0, 0x80, 0x80,
];

/// The state of a machine as mathematics sees it.
///
/// Addresses are unbounded integers here, so that the instruction semantics
/// can add to them without wrapping; `wf` says which of them fit the
/// machine's 16-bit registers.
#[verifier::ext_equal]
pub struct Machine {
    /// Address of the next instruction to fetch.
    pub pc: int,
    /// The 4096 bytes of memory.
    pub memory: Seq<u8>,
    /// The registers `V0` to `VF`.
    pub registers: Seq<u8>,
    /// The index register `I`.
    pub index: int,
    /// The return addresses in use, the most recent call last.
    pub stack: Seq<u16>,
    /// The key latches, `true` where a key is held down.
    pub keys: Seq<bool>,
    /// The pixels, row by row; pixel `(x, y)` is at `x + 64 * y`.
    pub screen: Seq<bool>,
    /// The delay timer.
    pub delay_timer: u8,
    /// The sound timer.
    pub sound_timer: u8,
}

impl Machine {
    /// The shape every machine state has: fixed sizes, a bounded stack, and
    /// addresses that fit in sixteen bits.
    pub open spec fn wf(self) -> bool {
        &&& 0 <= self.pc <= 0xFFFF
        &&& 0 <= self.index <= 0xFFFF
        &&& self.memory.len() == MEMORY_SIZE
        &&& self.registers.len() == REGISTER_COUNT
        &&& self.stack.len() <= STACK_SIZE
        &&& self.keys.len() == KEY_COUNT
        &&& self.screen.len() == SCREEN_SIZE
    }

    /// The state after power-on and after every reset: the font at the
    /// bottom of memory, the program counter at the start address,
    /// everything else zero, off or empty.
    pub open spec fn initial() -> Machine {
        Machine {
            pc: START_ADDRESS as int,
            memory: Seq::new(
                MEMORY_SIZE as nat,
                |a: int| if 0 <= a < FONT_SIZE { FONT[a] } else { 0u8 },
            ),
            registers: Seq::new(REGISTER_COUNT as nat, |r: int| 0u8),
            index: 0,
            stack: Seq::empty(),
            keys: Seq::new(KEY_COUNT as nat, |k: int| false),
            screen: Seq::new(SCREEN_SIZE as nat, |p: int| false),
            delay_timer: 0,
            sound_timer: 0,
        }
    }

    /// The 16-bit word stored big-endian at `addr` and `addr + 1`.
    pub open spec fn word_at(self, addr: int) -> u16 {
        (self.memory[addr] as int * 256 + self.memory[addr + 1] as int) as u16
    }
}

} // verus!
