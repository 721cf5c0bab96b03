//! The mathematical model of the machine and the meaning of its instructions.
//!
//! A [`Machine`] is a value of specifications only. Every contract of the
//! executable engine is stated over it: what one instruction does
//! ([`Machine::step`]), when it must be refused ([`Machine::fault`]) and what
//! one whole fetch, decode and execute does ([`Machine::cycle`]).

use crate::consts::{
    DISPLAY_HEIGHT, DISPLAY_SIZE, DISPLAY_WIDTH, FLAG_REGISTER, FONTSET, FONTSET_END,
    FONTSET_START, GLYPH_SIZE, MEMORY_SIZE, N_KEYS, N_REGISTERS, ROM_START, STACK_SIZE,
};
use crate::error::ProcessorError;
use crate::instruction::{decode, Instruction};
use vstd::prelude::*;

verus! {

/// The whole state of the machine.
#[verifier::ext_equal]
pub struct Machine {
    /// The general registers `V[0]` to `V[15]`. The last is the flag register.
    pub registers: Seq<u8>,
    /// The memory, byte by byte.
    pub memory: Seq<u8>,
    /// For each key of the keypad, whether it is held down.
    pub keys: Seq<bool>,
    /// The index register `I`.
    pub index: u16,
    /// The program counter.
    pub pc: u16,
    /// The return addresses. The slots below `sp` are in use.
    pub stack: Seq<u16>,
    /// The number of return addresses on the stack.
    pub sp: u8,
    /// The delay timer.
    pub delay_timer: u8,
    /// The sound timer.
    pub sound_timer: u8,
    /// The framebuffer, row by row, one cell per pixel.
    pub display: Seq<u8>,
}

/// The value of one pixel of a sprite row: bit `7 - col` of the row's byte, so
/// that column 0 is the most significant bit.
pub open spec fn sprite_pixel(row: u8, col: u8) -> u8 {
    (row >> ((7 - col) as u8)) & 1
}

/// `k` is the lowest index of a key that is held down.
pub open spec fn is_first_pressed(keys: Seq<bool>, k: int) -> bool {
    &&& 0 <= k < keys.len()
    &&& keys[k]
    &&& forall|j: int| 0 <= j < k ==> !keys[j]
}

/// Some key is held down.
pub open spec fn any_pressed(keys: Seq<bool>) -> bool {
    exists|k: int| 0 <= k < keys.len() && keys[k]
}

/// The lowest index of a key that is held down, if there is one.
pub open spec fn first_pressed(keys: Seq<bool>) -> int {
    choose|k: int| is_first_pressed(keys, k)
}

impl Machine {
    /// The invariant of the machine: every part has its fixed size, the stack
    /// pointer does not exceed the depth of the stack, and every cell of the
    /// framebuffer is 0 or 1.
    pub open spec fn wf(self) -> bool {
        &&& self.registers.len() == N_REGISTERS
        &&& self.memory.len() == MEMORY_SIZE
        &&& self.keys.len() == N_KEYS
        &&& self.stack.len() == STACK_SIZE
        &&& self.display.len() == DISPLAY_SIZE
        &&& self.sp <= STACK_SIZE
        &&& forall|k: int| 0 <= k < self.display.len() ==> self.display[k] <= 1
    }

    /// The machine at construction: everything zero, the program counter at
    /// the load address.
    pub open spec fn initial() -> Machine {
        Machine {
            registers: Seq::new(N_REGISTERS as nat, |i: int| 0u8),
            memory: Seq::new(MEMORY_SIZE as nat, |i: int| 0u8),
            keys: Seq::new(N_KEYS as nat, |i: int| false),
            index: 0,
            pc: ROM_START as u16,
            stack: Seq::new(STACK_SIZE as nat, |i: int| 0u16),
            sp: 0,
            delay_timer: 0,
            sound_timer: 0,
            display: Seq::new(DISPLAY_SIZE as nat, |i: int| 0u8),
        }
    }

    /// A program fits if it is no longer than the memory from the load address
    /// on.
    pub open spec fn rom_fits(rom: Seq<u8>) -> bool {
        rom.len() <= MEMORY_SIZE - ROM_START
    }

    /// The machine after loading `rom`: the program from the load address on,
    /// the glyph table in its reserved place, every other byte as before.
    pub open spec fn loaded(self, rom: Seq<u8>) -> Machine {
        Machine {
            memory: Seq::new(
                MEMORY_SIZE as nat,
                |a: int|
                    if FONTSET_START <= a < FONTSET_END {
                        FONTSET@[a - FONTSET_START]
                    } else if ROM_START <= a < ROM_START + rom.len() {
                        rom[a - ROM_START]
                    } else {
                        self.memory[a]
                    },
            ),
            ..self
        }
    }

    /// The value of register `x`.
    pub open spec fn reg(self, x: u8) -> u8 {
        self.registers[x as int]
    }

    /// The machine with register `x` set to `value`.
    pub open spec fn with_reg(self, x: u8, value: u8) -> Machine {
        Machine { registers: self.registers.update(x as int, value), ..self }
    }

    /// The machine with the flag register set to `value`.
    pub open spec fn with_flag(self, value: u8) -> Machine {
        self.with_reg(FLAG_REGISTER as u8, value)
    }

    /// The machine with the key vector replaced.
    pub open spec fn with_keys(self, keys: Seq<bool>) -> Machine {
        Machine { keys, ..self }
    }

    /// The machine with the delay timer set.
    pub open spec fn with_delay_timer(self, value: u8) -> Machine {
        Machine { delay_timer: value, ..self }
    }

    /// The machine with the sound timer set.
    pub open spec fn with_sound_timer(self, value: u8) -> Machine {
        Machine { sound_timer: value, ..self }
    }

    /// Two bytes can be fetched at the program counter.
    pub open spec fn can_fetch(self) -> bool {
        self.pc + 1 < MEMORY_SIZE
    }

    /// The opcode at the program counter: the byte there is its high byte, the
    /// next one its low byte.
    pub open spec fn opcode(self) -> u16 {
        (self.memory[self.pc as int] * 256 + self.memory[self.pc + 1]) as u16
    }

    /// The machine after a fetch: the program counter two further.
    pub open spec fn fetched(self) -> Machine {
        Machine { pc: (self.pc + 2) as u16, ..self }
    }

    /// Every cell of the framebuffer zero.
    pub open spec fn clear_display(self) -> Machine {
        Machine { display: Seq::new(DISPLAY_SIZE as nat, |k: int| 0u8), ..self }
    }

    /// The top return address popped into the program counter.
    pub open spec fn ret(self) -> Machine {
        Machine { sp: (self.sp - 1) as u8, pc: self.stack[self.sp - 1], ..self }
    }

    /// The program counter set to `addr`.
    pub open spec fn jump(self, addr: u16) -> Machine {
        Machine { pc: addr, ..self }
    }

    /// The program counter pushed, then set to `addr`.
    pub open spec fn call(self, addr: u16) -> Machine {
        Machine {
            stack: self.stack.update(self.sp as int, self.pc),
            sp: (self.sp + 1) as u8,
            pc: addr,
            ..self
        }
    }

    /// The program counter two further if `condition` holds.
    pub open spec fn skip_next_instruction_if(self, condition: bool) -> Machine {
        if condition {
            Machine { pc: (self.pc + 2) as u16, ..self }
        } else {
            self
        }
    }

    /// `V[x] = (V[x] + byte) mod 256`. The flag register is not touched.
    pub open spec fn add_val(self, x: u8, byte: u8) -> Machine {
        self.with_reg(x, ((self.reg(x) + byte) % 256) as u8)
    }

    /// `V[x] = V[x] | V[y]`.
    pub open spec fn or_reg(self, x: u8, y: u8) -> Machine {
        self.with_reg(x, self.reg(x) | self.reg(y))
    }

    /// `V[x] = V[x] & V[y]`.
    pub open spec fn and_reg(self, x: u8, y: u8) -> Machine {
        self.with_reg(x, self.reg(x) & self.reg(y))
    }

    /// `V[x] = V[x] ^ V[y]`.
    pub open spec fn xor_reg(self, x: u8, y: u8) -> Machine {
        self.with_reg(x, self.reg(x) ^ self.reg(y))
    }

    /// `V[x] = (V[x] + V[y]) mod 256`, then the flag register is 1 if the sum
    /// exceeded 255 and 0 if not.
    pub open spec fn add_registers(self, x: u8, y: u8) -> Machine {
        let sum = self.reg(x) + self.reg(y);
        self.with_reg(x, (sum % 256) as u8).with_flag(
            if sum > 255 {
                1
            } else {
                0
            },
        )
    }

    /// The flag register is 1 if `V[x] > V[y]` and 0 if not, then
    /// `V[x] = (V[x] - V[y]) mod 256`, read after the flag was written.
    pub open spec fn sub_reg(self, x: u8, y: u8) -> Machine {
        let flagged = self.with_flag(
            if self.reg(x) > self.reg(y) {
                1
            } else {
                0
            },
        );
        flagged.with_reg(x, ((flagged.reg(x) - flagged.reg(y)) % 256) as u8)
    }

    /// The flag register is the lowest bit of `V[x]`, then `V[x]` is halved,
    /// read after the flag was written.
    pub open spec fn shr(self, x: u8) -> Machine {
        let flagged = self.with_flag(self.reg(x) % 2);
        flagged.with_reg(x, flagged.reg(x) / 2)
    }

    /// The flag register is 0 if `V[x] > V[y]` and 1 if not, then
    /// `V[x] = (V[y] - V[x]) mod 256`, read after the flag was written.
    pub open spec fn subn_reg(self, x: u8, y: u8) -> Machine {
        let flagged = self.with_flag(
            if self.reg(x) > self.reg(y) {
                0
            } else {
                1
            },
        );
        flagged.with_reg(x, ((flagged.reg(y) - flagged.reg(x)) % 256) as u8)
    }

    /// The flag register is the highest bit of `V[x]`, then
    /// `V[x] = (2 * V[x]) mod 256`, read after the flag was written.
    pub open spec fn shl(self, x: u8) -> Machine {
        let flagged = self.with_flag(self.reg(x) / 128);
        flagged.with_reg(x, ((flagged.reg(x) * 2) % 256) as u8)
    }

    /// `I = addr`.
    pub open spec fn load_addr(self, addr: u16) -> Machine {
        Machine { index: addr, ..self }
    }

    /// The program counter set to `addr + V[0]`.
    pub open spec fn jump_addr(self, addr: u16) -> Machine {
        Machine { pc: (addr + self.reg(0)) as u16, ..self }
    }

    /// `V[x] = random & byte`.
    pub open spec fn rand(self, x: u8, byte: u8, random: u8) -> Machine {
        self.with_reg(x, random & byte)
    }

    /// Cell `k` of the framebuffer lies under a set pixel of the sprite at `I`
    /// whose top left corner is at column `x0` and row `y0`, counting only the
    /// sprite's rows before `rows` and, of row `rows` itself, the columns
    /// before `cols`. A pixel that would lie right of the last column or below
    /// the last row covers no cell: the sprite is clipped, not wrapped.
    pub open spec fn sprite_covers(self, x0: int, y0: int, rows: int, cols: int, k: int) -> bool {
        let row = k / (DISPLAY_WIDTH as int) - y0;
        let col = k % (DISPLAY_WIDTH as int) - x0;
        &&& 0 <= k < DISPLAY_SIZE
        &&& 0 <= col < 8
        &&& 0 <= row < rows || (row == rows && col < cols)
        &&& sprite_pixel(self.memory[self.index + row], col as u8) != 0
    }

    /// Drawing the sprite of `n` rows has flipped a cell that was lit.
    pub open spec fn sprite_collides(self, x0: int, y0: int, n: int) -> bool {
        exists|k: int| #[trigger] self.sprite_covers(x0, y0, n, 0, k) && self.display[k] != 0
    }

    /// The sprite of `n` rows at `I` drawn with its top left corner at column
    /// `x0` and row `y0`: every cell under a set pixel is flipped, and the flag
    /// register is 1 if one of them was lit before and 0 if none was.
    pub open spec fn draw(self, x0: int, y0: int, n: int) -> Machine {
        Machine {
            display: Seq::new(
                DISPLAY_SIZE as nat,
                |k: int|
                    if self.sprite_covers(x0, y0, n, 0, k) {
                        self.display[k] ^ 1
                    } else {
                        self.display[k]
                    },
            ),
            ..self.with_flag(
                if self.sprite_collides(x0, y0, n) {
                    1
                } else {
                    0
                },
            )
        }
    }

    /// The sprite of `n` rows at `I` drawn at column `V[x] mod 64` and row
    /// `V[y] mod 32`.
    pub open spec fn display(self, x: u8, y: u8, n: u8) -> Machine {
        self.draw(
            self.reg(x) as int % (DISPLAY_WIDTH as int),
            self.reg(y) as int % (DISPLAY_HEIGHT as int),
            n as int,
        )
    }

    /// Key `V[x]` is held down.
    pub open spec fn key_pressed(self, x: u8) -> bool {
        self.keys[self.reg(x) as int]
    }

    /// With a key held down, `V[x]` is the lowest index of such a key. With
    /// none, the program counter goes back by two, so that the same
    /// instruction is fetched again.
    pub open spec fn wait_key(self, x: u8) -> Machine {
        if any_pressed(self.keys) {
            self.with_reg(x, first_pressed(self.keys) as u8)
        } else {
            Machine { pc: (self.pc - 2) as u16, ..self }
        }
    }

    /// `I = (I + V[x]) mod 65536`.
    pub open spec fn add_index(self, x: u8) -> Machine {
        Machine { index: ((self.index + self.reg(x)) % 65536) as u16, ..self }
    }

    /// `I` points at the glyph of the low nibble of `V[x]`.
    pub open spec fn load_sprite(self, x: u8) -> Machine {
        Machine { index: (FONTSET_START + (self.reg(x) % 16) * GLYPH_SIZE) as u16, ..self }
    }

    /// The hundreds, tens and units of `V[x]` at `I`, `I + 1` and `I + 2`.
    pub open spec fn store_bcd(self, x: u8) -> Machine {
        let value = self.reg(x);
        let at = self.index as int;
        Machine {
            memory: self.memory.update(at, value / 100).update(at + 1, (value / 10) % 10).update(
                at + 2,
                value % 10,
            ),
            ..self
        }
    }

    /// `V[0]` to `V[x]` copied to memory at `I` to `I + x`.
    pub open spec fn save_registers(self, x: u8) -> Machine {
        Machine {
            memory: Seq::new(
                MEMORY_SIZE as nat,
                |a: int|
                    if self.index <= a <= self.index + x {
                        self.registers[a - self.index]
                    } else {
                        self.memory[a]
                    },
            ),
            ..self
        }
    }

    /// `V[0]` to `V[x]` copied from memory at `I` to `I + x`.
    pub open spec fn load_registers(self, x: u8) -> Machine {
        Machine {
            registers: Seq::new(
                N_REGISTERS as nat,
                |i: int|
                    if i <= x {
                        self.memory[self.index + i]
                    } else {
                        self.registers[i]
                    },
            ),
            ..self
        }
    }

    /// The machine after `instruction`, where `random` is the byte drawn for
    /// it. Only `RND` reads `random`.
    pub open spec fn step(self, instruction: Instruction, random: u8) -> Machine {
        match instruction {
            Instruction::CLS => self.clear_display(),
            Instruction::RET => self.ret(),
            Instruction::NOP => self,
            Instruction::JUMP(addr) => self.jump(addr),
            Instruction::CALL(addr) => self.call(addr),
            Instruction::SE(x, byte) => self.skip_next_instruction_if(self.reg(x) == byte),
            Instruction::SER(x, y) => self.skip_next_instruction_if(self.reg(x) == self.reg(y)),
            Instruction::SNE(x, byte) => self.skip_next_instruction_if(self.reg(x) != byte),
            Instruction::SNER(x, y) => self.skip_next_instruction_if(self.reg(x) != self.reg(y)),
            Instruction::LD(x, byte) => self.with_reg(x, byte),
            Instruction::ADD(x, byte) => self.add_val(x, byte),
            Instruction::LDR(x, y) => self.with_reg(x, self.reg(y)),
            Instruction::OR(x, y) => self.or_reg(x, y),
            Instruction::AND(x, y) => self.and_reg(x, y),
            Instruction::XOR(x, y) => self.xor_reg(x, y),
            Instruction::ADDR(x, y) => self.add_registers(x, y),
            Instruction::SUBR(x, y) => self.sub_reg(x, y),
            Instruction::SHR(x) => self.shr(x),
            Instruction::SUBN(x, y) => self.subn_reg(x, y),
            Instruction::SHL(x) => self.shl(x),
            Instruction::LDA(addr) => self.load_addr(addr),
            Instruction::JUMPV0(addr) => self.jump_addr(addr),
            Instruction::RND(x, byte) => self.rand(x, byte, random),
            Instruction::DRW(x, y, n) => self.display(x, y, n),
            Instruction::SKP(x) => self.skip_next_instruction_if(self.key_pressed(x)),
            Instruction::SKNP(x) => self.skip_next_instruction_if(!self.key_pressed(x)),
            Instruction::LDT(x) => self.with_reg(x, self.delay_timer),
            Instruction::WKEY(x) => self.wait_key(x),
            Instruction::SDT(x) => self.with_delay_timer(self.reg(x)),
            Instruction::SST(x) => self.with_sound_timer(self.reg(x)),
            Instruction::ADDI(x) => self.add_index(x),
            Instruction::LDSPR(x) => self.load_sprite(x),
            Instruction::STBCD(x) => self.store_bcd(x),
            Instruction::STREG(x) => self.save_registers(x),
            Instruction::LDREG(x) => self.load_registers(x),
        }
    }

    /// The failure of a skip: with `condition`, the program counter must have
    /// room for two more.
    pub open spec fn skip_fault(self, condition: bool) -> Option<ProcessorError> {
        if condition && self.pc + 2 > u16::MAX {
            Some(ProcessorError::PcOutOfRange)
        } else {
            None
        }
    }

    /// The failure of a key test on `V[x]`, which skips if the key's state
    /// equals `pressed`.
    pub open spec fn key_fault(self, x: u8, pressed: bool) -> Option<ProcessorError> {
        if self.reg(x) >= N_KEYS {
            Some(ProcessorError::InvalidKey)
        } else {
            self.skip_fault(self.key_pressed(x) == pressed)
        }
    }

    /// The failure of an access to the `len` bytes of memory from `I` on.
    pub open spec fn memory_fault(self, len: int) -> Option<ProcessorError> {
        if len > 0 && self.index + len > MEMORY_SIZE {
            Some(ProcessorError::MemoryOutOfBounds)
        } else {
            None
        }
    }

    /// Why `instruction` must be refused in this state, or `None` if it can be
    /// executed.
    pub open spec fn fault(self, instruction: Instruction) -> Option<ProcessorError> {
        if !instruction.wf() {
            Some(ProcessorError::InvalidOperand)
        } else {
            match instruction {
                Instruction::RET => if self.sp == 0 {
                    Some(ProcessorError::StackUnderflow)
                } else {
                    None
                },
                Instruction::CALL(_) => if self.sp >= STACK_SIZE {
                    Some(ProcessorError::StackOverflow)
                } else {
                    None
                },
                Instruction::SE(x, byte) => self.skip_fault(self.reg(x) == byte),
                Instruction::SER(x, y) => self.skip_fault(self.reg(x) == self.reg(y)),
                Instruction::SNE(x, byte) => self.skip_fault(self.reg(x) != byte),
                Instruction::SNER(x, y) => self.skip_fault(self.reg(x) != self.reg(y)),
                Instruction::DRW(_, _, n) => self.memory_fault(n as int),
                Instruction::SKP(x) => self.key_fault(x, true),
                Instruction::SKNP(x) => self.key_fault(x, false),
                Instruction::WKEY(_) => if !any_pressed(self.keys) && self.pc < 2 {
                    Some(ProcessorError::PcOutOfRange)
                } else {
                    None
                },
                Instruction::STBCD(_) => self.memory_fault(3),
                Instruction::STREG(x) => self.memory_fault(x + 1),
                Instruction::LDREG(x) => self.memory_fault(x + 1),
                _ => None,
            }
        }
    }

    /// `instruction`, with `random` as the byte drawn for it, is answered by
    /// `r` and leaves the machine as `after`: either it is refused with its
    /// fault and nothing changes, or it is executed.
    pub open spec fn executes_to(
        self,
        instruction: Instruction,
        random: u8,
        r: Result<(), ProcessorError>,
        after: Machine,
    ) -> bool {
        match self.fault(instruction) {
            Some(e) => r == Err::<(), ProcessorError>(e) && after == self,
            None => r is Ok && after == self.step(instruction, random),
        }
    }

    /// One fetch, decode and execute: the failure if the fetch or the
    /// instruction must be refused, else the machine afterwards.
    pub open spec fn cycle(self, random: u8) -> Result<Machine, ProcessorError> {
        if !self.can_fetch() {
            Err(ProcessorError::MemoryOutOfBounds)
        } else {
            let instruction = decode(self.opcode());
            match self.fetched().fault(instruction) {
                Some(e) => Err(e),
                None => Ok(self.fetched().step(instruction, random)),
            }
        }
    }

    /// The instruction at the program counter asks for a random byte.
    pub open spec fn draws_random(self) -> bool {
        self.can_fetch() && decode(self.opcode()) is RND
    }

    /// A cycle with `random` as the byte drawn is answered by `r` and leaves
    /// the machine as `after`: either it fails and nothing changes, or it
    /// succeeds.
    pub open spec fn cycles_to(
        self,
        random: u8,
        r: Result<(), ProcessorError>,
        after: Machine,
    ) -> bool {
        match self.cycle(random) {
            Ok(next) => r is Ok && after == next,
            Err(e) => r == Err::<(), ProcessorError>(e) && after == self,
        }
    }
}

} // verus!
