//! Sizes and addresses of the machine.

use vstd::prelude::*;

verus! {

/// Number of general registers. The last one doubles as the flag register.
pub const N_REGISTERS: usize = 16;

/// Index of the flag register.
pub const FLAG_REGISTER: usize = 15;

/// Number of addressable bytes.
pub const MEMORY_SIZE: usize = 4096;

/// Number of keys of the keypad.
pub const N_KEYS: usize = 16;

/// Number of return addresses the call stack can hold.
pub const STACK_SIZE: usize = 16;

/// Address at which a program is loaded and starts.
pub const ROM_START: usize = 512;

/// Columns of the framebuffer.
pub const DISPLAY_WIDTH: usize = 64;

/// Rows of the framebuffer.
pub const DISPLAY_HEIGHT: usize = 32;

/// Cells of the framebuffer, stored row by row.
pub const DISPLAY_SIZE: usize = 2048;

/// Address of the first byte of the glyph table.
pub const FONTSET_START: usize = 80;

/// Address just past the last byte of the glyph table.
pub const FONTSET_END: usize = 160;

/// Bytes of one glyph.
pub const GLYPH_SIZE: usize = 5;

/// The glyphs of the sixteen hexadecimal digits, five rows each, the pixels of
/// a row in the high nibble of its byte.
pub const FONTSET: [u8; 80] = [
    0xF0, 0x90, 0x90, 0x90, 0xF0,
    0x20, 0x60, 0x20, 0x20, 0x70,
    0xF0, 0x10, 0xF0, 0x80, 0xF0,
    0xF0, 0x10, 0xF0, 0x10, 0xF0,
    0x90, 0x90, 0xF0, 0x10, 0x10,
    0xF0, 0x80, 0xF0, 0x10, 0xF0,
    0xF0, 0x80, 0xF0, 0x90, 0xF0,
    0xF0, 0x10, 0x20, 0x40, 0x40,
    0xF0, 0x90, 0xF0, 0x90, 0xF0,
    0xF0, 0x90, 0xF0, 0x10, 0xF0,
    0xF0, 0x90, 0xF0, 0x90, 0x90,
    0xE0, 0x90, 0xE0, 0x90, 0xE0,
    0xF0, 0x80, 0x80, 0x80, 0xF0,
    0xE0, 0x90, 0x90, 0x90, 0xE0,
    0xF0, 0x80, 0xF0, 0x80, 0xF0,
    0xF0, 0x80, 0xF0, 0x80, 0x80,
];


} // verus!
