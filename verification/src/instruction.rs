//! The instruction variants and the decoding of 16-bit opcodes.
//!
//! An opcode is read as four nibbles. The highest selects the group. The
//! operands lie at fixed places: register `x` in the second nibble, register
//! `y` in the third, a count `n` in the lowest nibble, an immediate byte in the
//! low byte and an address in the low twelve bits.

use vstd::prelude::*;

verus! {

/// One decoded instruction with its operands.
///
/// Register operands come first. `x` and `y` below are register indices,
/// `byte` an 8-bit immediate, `addr` a 12-bit address, `n` a 4-bit count.
#[derive(Debug, Clone, Copy, PartialEq, Eq, Structural)]
pub enum Instruction {
    /// Clear the screen.
    CLS,
    /// Return from a subroutine.
    RET,
    /// Do nothing. Every opcode without a meaning of its own decodes to this.
    NOP,
    /// Jump to `addr`.
    JUMP(u16),
    /// Call the subroutine at `addr`.
    CALL(u16),
    /// Skip the next instruction if `V[x] == byte`.
    SE(u8, u8),
    /// Skip the next instruction if `V[x] == V[y]`.
    SER(u8, u8),
    /// Skip the next instruction if `V[x] != byte`.
    SNE(u8, u8),
    /// Skip the next instruction if `V[x] != V[y]`.
    SNER(u8, u8),
    /// `V[x] = byte`.
    LD(u8, u8),
    /// `V[x] += byte`, wrapping, flag untouched.
    ADD(u8, u8),
    /// `V[x] = V[y]`.
    LDR(u8, u8),
    /// `V[x] |= V[y]`.
    OR(u8, u8),
    /// `V[x] &= V[y]`.
    AND(u8, u8),
    /// `V[x] ^= V[y]`.
    XOR(u8, u8),
    /// `V[x] += V[y]`, wrapping, flag = carry.
    ADDR(u8, u8),
    /// `V[x] -= V[y]`, wrapping, flag = `V[x] > V[y]`.
    SUBR(u8, u8),
    /// `V[x] >>= 1`, flag = the bit shifted out.
    SHR(u8),
    /// `V[x] = V[y] - V[x]`, wrapping, flag = `V[x] <= V[y]`.
    SUBN(u8, u8),
    /// `V[x] <<= 1`, flag = the bit shifted out.
    SHL(u8),
    /// `I = addr`.
    LDA(u16),
    /// Jump to `addr + V[0]`.
    JUMPV0(u16),
    /// `V[x] = random & byte`.
    RND(u8, u8),
    /// Draw the `n`-row sprite at `I` to the screen at `(V[x], V[y])`.
    DRW(u8, u8, u8),
    /// Skip the next instruction if key `V[x]` is pressed.
    SKP(u8),
    /// Skip the next instruction if key `V[x]` is not pressed.
    SKNP(u8),
    /// `V[x] = delay timer`.
    LDT(u8),
    /// Wait for a key and store its index in `V[x]`.
    WKEY(u8),
    /// `delay timer = V[x]`.
    SDT(u8),
    /// `sound timer = V[x]`.
    SST(u8),
    /// `I += V[x]`.
    ADDI(u8),
    /// `I =` address of the glyph of the low nibble of `V[x]`.
    LDSPR(u8),
    /// Store the three decimal digits of `V[x]` at `I`, `I + 1`, `I + 2`.
    STBCD(u8),
    /// Store `V[0..=x]` to memory from `I` on.
    STREG(u8),
    /// Load `V[0..=x]` from memory from `I` on.
    LDREG(u8),
}

impl Instruction {
    /// Every operand fits the opcode field it comes from: a register index and
    /// a count are below 16, an address is below 4096.
    pub open spec fn wf(self) -> bool {
        match self {
            Instruction::CLS | Instruction::RET | Instruction::NOP => true,
            Instruction::JUMP(addr)
            | Instruction::CALL(addr)
            | Instruction::LDA(addr)
            | Instruction::JUMPV0(addr) => addr < 4096,
            Instruction::SE(x, _)
            | Instruction::SNE(x, _)
            | Instruction::LD(x, _)
            | Instruction::ADD(x, _)
            | Instruction::RND(x, _) => x < 16,
            Instruction::SER(x, y)
            | Instruction::SNER(x, y)
            | Instruction::LDR(x, y)
            | Instruction::OR(x, y)
            | Instruction::AND(x, y)
            | Instruction::XOR(x, y)
            | Instruction::ADDR(x, y)
            | Instruction::SUBR(x, y)
            | Instruction::SUBN(x, y) => x < 16 && y < 16,
            Instruction::DRW(x, y, n) => x < 16 && y < 16 && n < 16,
            Instruction::SHR(x)
            | Instruction::SHL(x)
            | Instruction::SKP(x)
            | Instruction::SKNP(x)
            | Instruction::LDT(x)
            | Instruction::WKEY(x)
            | Instruction::SDT(x)
            | Instruction::SST(x)
            | Instruction::ADDI(x)
            | Instruction::LDSPR(x)
            | Instruction::STBCD(x)
            | Instruction::STREG(x)
            | Instruction::LDREG(x) => x < 16,
        }
    }

    /// Whether the operands fit their opcode fields.
    pub fn is_wf(&self) -> (b: bool)
        ensures
            b == self.wf(),
    {
        match *self {
            Instruction::CLS | Instruction::RET | Instruction::NOP => true,
            Instruction::JUMP(addr)
            | Instruction::CALL(addr)
            | Instruction::LDA(addr)
            | Instruction::JUMPV0(addr) => addr < 4096,
            Instruction::SE(x, _)
            | Instruction::SNE(x, _)
            | Instruction::LD(x, _)
            | Instruction::ADD(x, _)
            | Instruction::RND(x, _) => x < 16,
            Instruction::SER(x, y)
            | Instruction::SNER(x, y)
            | Instruction::LDR(x, y)
            | Instruction::OR(x, y)
            | Instruction::AND(x, y)
            | Instruction::XOR(x, y)
            | Instruction::ADDR(x, y)
            | Instruction::SUBR(x, y)
            | Instruction::SUBN(x, y) => x < 16 && y < 16,
            Instruction::DRW(x, y, n) => x < 16 && y < 16 && n < 16,
            Instruction::SHR(x)
            | Instruction::SHL(x)
            | Instruction::SKP(x)
            | Instruction::SKNP(x)
            | Instruction::LDT(x)
            | Instruction::WKEY(x)
            | Instruction::SDT(x)
            | Instruction::SST(x)
            | Instruction::ADDI(x)
            | Instruction::LDSPR(x)
            | Instruction::STBCD(x)
            | Instruction::STREG(x)
            | Instruction::LDREG(x) => x < 16,
        }
    }
}

/// The highest nibble of an opcode, which selects the instruction group.
pub open spec fn opcode_group(opcode: u16) -> u8 {
    (opcode / 4096) as u8
}

/// The register operand `x`: the second nibble from the top.
pub open spec fn opcode_x(opcode: u16) -> u8 {
    ((opcode / 256) % 16) as u8
}

/// The register operand `y`: the third nibble from the top.
pub open spec fn opcode_y(opcode: u16) -> u8 {
    ((opcode / 16) % 16) as u8
}

/// The count operand `n`: the lowest nibble.
pub open spec fn opcode_n(opcode: u16) -> u8 {
    (opcode % 16) as u8
}

/// The immediate operand: the low byte.
pub open spec fn opcode_byte(opcode: u16) -> u8 {
    (opcode % 256) as u8
}

/// The address operand: the low twelve bits.
pub open spec fn opcode_addr(opcode: u16) -> u16 {
    opcode % 4096
}

/// The instruction that an opcode stands for.
///
/// The group is chosen by the highest nibble. Groups 0, 14 and 15 choose
/// further by the low byte, group 8 by the lowest nibble. An opcode that no
/// line below names is a `NOP`.
pub open spec fn decode(opcode: u16) -> Instruction {
    let x = opcode_x(opcode);
    let y = opcode_y(opcode);
    let n = opcode_n(opcode);
    let byte = opcode_byte(opcode);
    let addr = opcode_addr(opcode);
    match opcode_group(opcode) {
        0 => match byte {
            0xE0 => Instruction::CLS,
            0xEE => Instruction::RET,
            _ => Instruction::NOP,
        },
        1 => Instruction::JUMP(addr),
        2 => Instruction::CALL(addr),
        3 => Instruction::SE(x, byte),
        4 => Instruction::SNE(x, byte),
        5 => Instruction::SER(x, y),
        6 => Instruction::LD(x, byte),
        7 => Instruction::ADD(x, byte),
        8 => match n {
            0x0 => Instruction::LDR(x, y),
            0x1 => Instruction::OR(x, y),
            0x2 => Instruction::AND(x, y),
            0x3 => Instruction::XOR(x, y),
            0x4 => Instruction::ADDR(x, y),
            0x5 => Instruction::SUBR(x, y),
            0x6 => Instruction::SHR(x),
            0x7 => Instruction::SUBN(x, y),
            0xE => Instruction::SHL(x),
            _ => Instruction::NOP,
        },
        9 => Instruction::SNER(x, y),
        10 => Instruction::LDA(addr),
        11 => Instruction::JUMPV0(addr),
        12 => Instruction::RND(x, byte),
        13 => Instruction::DRW(x, y, n),
        14 => match byte {
            0x9E => Instruction::SKP(x),
            0xA1 => Instruction::SKNP(x),
            _ => Instruction::NOP,
        },
        15 => match byte {
            0x07 => Instruction::LDT(x),
            0x0A => Instruction::WKEY(x),
            0x15 => Instruction::SDT(x),
            0x18 => Instruction::SST(x),
            0x1E => Instruction::ADDI(x),
            0x29 => Instruction::LDSPR(x),
            0x33 => Instruction::STBCD(x),
            0x55 => Instruction::STREG(x),
            0x65 => Instruction::LDREG(x),
            _ => Instruction::NOP,
        },
        _ => Instruction::NOP,
    }
}

/// Decoding is total, and the operands of a decoded instruction always fit
/// their fields.
pub proof fn lemma_decode_wf(opcode: u16)
    ensures
        decode(opcode).wf(),
{
}

} // verus!
