//! The executable engine: the machine state and the fetch, decode and execute
//! of its instructions.
//!
//! Nothing here panics. Where a program or a caller asks for what the machine
//! cannot do (a return with an empty stack, an access past the end of memory),
//! the public functions report a [`ProcessorError`] and leave the machine as it
//! was.

use crate::consts::{
    DISPLAY_HEIGHT, DISPLAY_SIZE, DISPLAY_WIDTH, FLAG_REGISTER, FONTSET, FONTSET_END,
    FONTSET_START, GLYPH_SIZE, MEMORY_SIZE, N_KEYS, N_REGISTERS, ROM_START, STACK_SIZE,
};
use crate::error::ProcessorError;
use crate::instruction::{decode, Instruction};
use crate::machine::{any_pressed, first_pressed, is_first_pressed, Machine};
use vstd::prelude::*;

verus! {

/// The machine. Its fields are private: the state changes through the
/// functions below only, which keep [`Machine::wf`].
#[derive(Debug)]
pub struct Processor {
    registers: [u8; N_REGISTERS],
    memory: [u8; MEMORY_SIZE],
    keys_pressed: [bool; N_KEYS],
    index: u16,
    pc: u16,
    stack: [u16; STACK_SIZE],
    sp: u8,
    delay_timer: u8,
    sound_timer: u8,
    display: [u8; DISPLAY_SIZE],
}

impl View for Processor {
    type V = Machine;

    closed spec fn view(&self) -> Machine {
        Machine {
            registers: self.registers@,
            memory: self.memory@,
            keys: self.keys_pressed@,
            index: self.index,
            pc: self.pc,
            stack: self.stack@,
            sp: self.sp,
            delay_timer: self.delay_timer,
            sound_timer: self.sound_timer,
            display: self.display@,
        }
    }
}

impl Processor {
    #[verifier::type_invariant]
    spec fn inv(self) -> bool {
        self@.wf()
    }

    /// A machine with everything zero and the program counter at the load
    /// address. The glyph table is not in memory yet: `load_rom` puts it there.
    pub fn new() -> (processor: Processor)
        ensures
            processor@ == Machine::initial(),
    {
        Processor {
            registers: [0; N_REGISTERS],
            memory: [0; MEMORY_SIZE],
            keys_pressed: [false; N_KEYS],
            index: 0,
            pc: ROM_START as u16,
            stack: [0; STACK_SIZE],
            sp: 0,
            delay_timer: 0,
            sound_timer: 0,
            display: [0; DISPLAY_SIZE],
        }
    }

    /// Copies `rom` to memory from the load address on and the glyph table to
    /// its reserved place. A program longer than the memory from the load
    /// address on is refused, and nothing is changed.
    pub fn load_rom(&mut self, rom: &[u8]) -> (r: Result<(), ProcessorError>)
        ensures
            Machine::rom_fits(rom@) ==> r is Ok && final(self)@ == old(self)@.loaded(rom@),
            !Machine::rom_fits(rom@) ==> r == Err::<(), ProcessorError>(
                ProcessorError::RomTooLarge,
            ) && final(self)@ == old(self)@,
    {
        if rom.len() > MEMORY_SIZE - ROM_START {
            return Err(ProcessorError::RomTooLarge);
        }
        let mut i: usize = 0;
        while i < rom.len()
            invariant
                i <= rom.len() <= MEMORY_SIZE - ROM_START,
                self@ == (Machine { memory: self.memory@, ..old(self)@ }),
                forall|a: int|
                    0 <= a < MEMORY_SIZE ==> self.memory@[a] == if ROM_START <= a < ROM_START + i {
                        rom@[a - ROM_START]
                    } else {
                        old(self)@.memory[a]
                    },
            decreases rom.len() - i,
        {
            proof {
                use_type_invariant(&*self);
            }
            self.memory[ROM_START + i] = rom[i];
            i += 1;
        }
        let mut j: usize = 0;
        while j < FONTSET_END - FONTSET_START
            invariant
                j <= FONTSET_END - FONTSET_START,
                rom.len() <= MEMORY_SIZE - ROM_START,
                self@ == (Machine { memory: self.memory@, ..old(self)@ }),
                forall|a: int|
                    0 <= a < MEMORY_SIZE ==> self.memory@[a] == if FONTSET_START <= a
                        < FONTSET_START + j {
                        FONTSET@[a - FONTSET_START]
                    } else if ROM_START <= a < ROM_START + rom.len() {
                        rom@[a - ROM_START]
                    } else {
                        old(self)@.memory[a]
                    },
            decreases FONTSET_END - FONTSET_START - j,
        {
            proof {
                use_type_invariant(&*self);
            }
            self.memory[FONTSET_START + j] = FONTSET[j];
            j += 1;
        }
        Ok(())
    }

    /// The general registers.
    pub fn registers(&self) -> (r: &[u8; N_REGISTERS])
        ensures
            r@ == self@.registers,
    {
        &self.registers
    }

    /// The memory.
    pub fn memory(&self) -> (r: &[u8; MEMORY_SIZE])
        ensures
            r@ == self@.memory,
    {
        &self.memory
    }

    /// The key vector.
    pub fn keys_pressed(&self) -> (r: &[bool; N_KEYS])
        ensures
            r@ == self@.keys,
    {
        &self.keys_pressed
    }

    /// The index register.
    pub fn index(&self) -> (r: u16)
        ensures
            r == self@.index,
    {
        self.index
    }

    /// The program counter.
    pub fn pc(&self) -> (r: u16)
        ensures
            r == self@.pc,
    {
        self.pc
    }

    /// The call stack. The slots below `sp` hold return addresses.
    pub fn stack(&self) -> (r: &[u16; STACK_SIZE])
        ensures
            r@ == self@.stack,
    {
        &self.stack
    }

    /// The number of return addresses on the stack, 16 at most.
    pub fn sp(&self) -> (r: u8)
        ensures
            r == self@.sp,
            self@.wf(),
    {
        proof {
            use_type_invariant(self);
        }
        self.sp
    }

    /// The delay timer.
    pub fn delay_timer(&self) -> (r: u8)
        ensures
            r == self@.delay_timer,
    {
        self.delay_timer
    }

    /// The sound timer.
    pub fn sound_timer(&self) -> (r: u8)
        ensures
            r == self@.sound_timer,
    {
        self.sound_timer
    }

    /// The framebuffer, row by row. Every cell is 0 or 1.
    pub fn framebuffer(&self) -> (r: &[u8; DISPLAY_SIZE])
        ensures
            r@ == self@.display,
            self@.wf(),
    {
        proof {
            use_type_invariant(self);
        }
        &self.display
    }

    /// Replaces the key vector: `keys[k]` says whether key `k` is held down.
    pub fn set_keys(&mut self, keys: [bool; N_KEYS])
        ensures
            final(self)@ == old(self)@.with_keys(keys@),
    {
        proof {
            use_type_invariant(&*self);
        }
        self.keys_pressed = keys;
    }

    /// Sets the delay timer. The engine never counts it down itself.
    pub fn set_delay_timer(&mut self, value: u8)
        ensures
            final(self)@ == old(self)@.with_delay_timer(value),
    {
        proof {
            use_type_invariant(&*self);
        }
        self.delay_timer = value;
    }

    /// Sets the sound timer. The engine never counts it down itself.
    pub fn set_sound_timer(&mut self, value: u8)
        ensures
            final(self)@ == old(self)@.with_sound_timer(value),
    {
        proof {
            use_type_invariant(&*self);
        }
        self.sound_timer = value;
    }

    /// Reads the opcode at the program counter and moves the program counter
    /// past it. A program counter with fewer than two bytes of memory left is
    /// refused, and nothing is changed.
    pub fn fetch_instruction(&mut self) -> (r: Result<u16, ProcessorError>)
        ensures
            old(self)@.can_fetch() ==> r == Ok::<u16, ProcessorError>(old(self)@.opcode())
                && final(self)@ == old(self)@.fetched(),
            !old(self)@.can_fetch() ==> r == Err::<u16, ProcessorError>(
                ProcessorError::MemoryOutOfBounds,
            ) && final(self)@ == old(self)@,
    {
        proof {
            use_type_invariant(&*self);
        }
        if self.pc as usize + 1 >= MEMORY_SIZE {
            return Err(ProcessorError::MemoryOutOfBounds);
        }
        let first_byte: u16 = self.memory[self.pc as usize] as u16;
        let second_byte: u16 = self.memory[self.pc as usize + 1] as u16;
        self.pc += 2;
        let opcode: u16 = (first_byte << 8) | second_byte;
        assert(opcode == first_byte * 256 + second_byte) by (bit_vector)
            requires
                opcode == (first_byte << 8) | second_byte,
                first_byte < 256,
                second_byte < 256,
        ;
        Ok(opcode)
    }

    /// The instruction that `opcode` stands for. Every opcode has one: those
    /// without a meaning of their own are a `NOP`.
    pub fn decode_instruction(opcode: u16) -> (instruction: Instruction)
        ensures
            instruction == decode(opcode),
            instruction.wf(),
    {
        let group: u16 = (opcode >> 12) & 0xf;
        let x: u8 = ((opcode >> 8) & 0xf) as u8;
        let y: u8 = ((opcode >> 4) & 0xf) as u8;
        let n: u8 = (opcode & 0xf) as u8;
        let byte: u8 = (opcode & 0xff) as u8;
        let addr: u16 = opcode & 0x0fff;
        assert((opcode >> 12) & 0xf == opcode / 4096 && (opcode >> 8) & 0xf == (opcode / 256) % 16
            && (opcode >> 4) & 0xf == (opcode / 16) % 16 && opcode & 0xf == opcode % 16 && opcode
            & 0xff == opcode % 256 && opcode & 0x0fff == opcode % 4096) by (bit_vector);
        match group {
            0x0 => match byte {
                0xe0 => Instruction::CLS,
                0xee => Instruction::RET,
                _ => Instruction::NOP,
            },
            0x1 => Instruction::JUMP(addr),
            0x2 => Instruction::CALL(addr),
            0x3 => Instruction::SE(x, byte),
            0x4 => Instruction::SNE(x, byte),
            0x5 => Instruction::SER(x, y),
            0x6 => Instruction::LD(x, byte),
            0x7 => Instruction::ADD(x, byte),
            0x8 => match n {
                0x0 => Instruction::LDR(x, y),
                0x1 => Instruction::OR(x, y),
                0x2 => Instruction::AND(x, y),
                0x3 => Instruction::XOR(x, y),
                0x4 => Instruction::ADDR(x, y),
                0x5 => Instruction::SUBR(x, y),
                0x6 => Instruction::SHR(x),
                0x7 => Instruction::SUBN(x, y),
                0xE => Instruction::SHL(x),
                _ => Instruction::NOP,
            },
            0x9 => Instruction::SNER(x, y),
            0xA => Instruction::LDA(addr),
            0xB => Instruction::JUMPV0(addr),
            0xC => Instruction::RND(x, byte),
            0xD => Instruction::DRW(x, y, n),
            0xE => match byte {
                0x9E => Instruction::SKP(x),
                0xA1 => Instruction::SKNP(x),
                _ => Instruction::NOP,
            },
            0xF => match byte {
                0x07 => Instruction::LDT(x),
                0x0A => Instruction::WKEY(x),
                0x15 => Instruction::SDT(x),
                0x18 => Instruction::SST(x),
                0x1E => Instruction::ADDI(x),
                0x29 => Instruction::LDSPR(x),
                0x33 => Instruction::STBCD(x),
                0x55 => Instruction::STREG(x),
                0x65 => Instruction::LDREG(x),
                _ => Instruction::NOP,
            },
            _ => Instruction::NOP,
        }
    }

    /// Why `instruction` must be refused in the present state, or `None` if it
    /// can be executed.
    pub fn check_instruction(&self, instruction: Instruction) -> (f: Option<ProcessorError>)
        ensures
            f == self@.fault(instruction),
    {
        proof {
            use_type_invariant(self);
        }
        if !instruction.is_wf() {
            return Some(ProcessorError::InvalidOperand);
        }
        match instruction {
            Instruction::RET => if self.sp == 0 {
                Some(ProcessorError::StackUnderflow)
            } else {
                None
            },
            Instruction::CALL(_) => if self.sp as usize >= STACK_SIZE {
                Some(ProcessorError::StackOverflow)
            } else {
                None
            },
            Instruction::SE(reg, value) => self.check_skip(self.registers[reg as usize] == value),
            Instruction::SER(reg1, reg2) => self.check_skip(
                self.registers[reg1 as usize] == self.registers[reg2 as usize],
            ),
            Instruction::SNE(reg, value) => self.check_skip(self.registers[reg as usize] != value),
            Instruction::SNER(reg1, reg2) => self.check_skip(
                self.registers[reg1 as usize] != self.registers[reg2 as usize],
            ),
            Instruction::DRW(_, _, n) => self.check_memory(n as usize),
            Instruction::SKP(reg) => self.check_key(reg, true),
            Instruction::SKNP(reg) => self.check_key(reg, false),
            Instruction::WKEY(_) => if self.pc < 2 && self.first_pressed_key().is_none() {
                Some(ProcessorError::PcOutOfRange)
            } else {
                None
            },
            Instruction::STBCD(_) => self.check_memory(3),
            Instruction::STREG(reg) => self.check_memory(reg as usize + 1),
            Instruction::LDREG(reg) => self.check_memory(reg as usize + 1),
            _ => None,
        }
    }

    fn check_skip(&self, condition: bool) -> (f: Option<ProcessorError>)
        ensures
            f == self@.skip_fault(condition),
    {
        if condition && self.pc > u16::MAX - 2 {
            Some(ProcessorError::PcOutOfRange)
        } else {
            None
        }
    }

    fn check_key(&self, reg: u8, pressed: bool) -> (f: Option<ProcessorError>)
        requires
            reg < N_REGISTERS,
        ensures
            f == self@.key_fault(reg, pressed),
    {
        let key: usize = self.registers[reg as usize] as usize;
        if key >= N_KEYS {
            Some(ProcessorError::InvalidKey)
        } else {
            self.check_skip(self.keys_pressed[key] == pressed)
        }
    }

    fn check_memory(&self, len: usize) -> (f: Option<ProcessorError>)
        requires
            len <= 16,
        ensures
            f == self@.memory_fault(len as int),
    {
        if len > 0 && self.index as usize + len > MEMORY_SIZE {
            Some(ProcessorError::MemoryOutOfBounds)
        } else {
            None
        }
    }

    /// The lowest key that is held down, scanning from key 0 upward.
    fn first_pressed_key(&self) -> (key: Option<u8>)
        ensures
            match key {
                Some(k) => is_first_pressed(self@.keys, k as int) && first_pressed(self@.keys) == k,
                None => !any_pressed(self@.keys),
            },
    {
        let mut i: u8 = 0;
        while (i as usize) < N_KEYS
            invariant
                i <= N_KEYS,
                forall|j: int| 0 <= j < i ==> !self.keys_pressed@[j],
            decreases N_KEYS - i,
        {
            if self.keys_pressed[i as usize] {
                assert(is_first_pressed(self@.keys, i as int));
                return Some(i);
            }
            i += 1;
        }
        None
    }

    /// Executes `instruction`, drawing a random byte where it asks for one.
    /// An instruction that must be refused changes nothing. Only `RND` asks
    /// for a byte: for every other instruction the outcome is determined.
    pub fn execute_instruction(&mut self, instruction: Instruction) -> (r: Result<
        (),
        ProcessorError,
    >)
        ensures
            exists|random: u8| old(self)@.executes_to(instruction, random, r, final(self)@),
            !(instruction is RND) ==> old(self)@.executes_to(instruction, 0, r, final(self)@),
    {
        let random: u8 = match instruction {
            Instruction::RND(_, _) => random_byte(),
            _ => 0,
        };
        let ghost before = self@;
        let r = self.execute_with(instruction, random);
        assert(before.executes_to(instruction, random, r, self@));
        r
    }

    /// Executes `instruction` with `random` as the byte drawn for it. An
    /// instruction that must be refused changes nothing.
    pub fn execute_with(&mut self, instruction: Instruction, random: u8) -> (r: Result<
        (),
        ProcessorError,
    >)
        ensures
            old(self)@.executes_to(instruction, random, r, final(self)@),
    {
        if let Some(e) = self.check_instruction(instruction) {
            return Err(e);
        }
        match instruction {
            Instruction::CLS => self.clear_display(),
            Instruction::RET => self.ret(),
            Instruction::NOP => {},
            Instruction::JUMP(addr) => self.jump(addr),
            Instruction::CALL(addr) => self.call(addr),
            Instruction::SE(reg, value) => {
                let condition = self.registers[reg as usize] == value;
                self.skip_next_instruction_if(condition)
            },
            Instruction::SER(reg1, reg2) => {
                let condition = self.registers[reg1 as usize] == self.registers[reg2 as usize];
                self.skip_next_instruction_if(condition)
            },
            Instruction::SNE(reg, value) => {
                let condition = self.registers[reg as usize] != value;
                self.skip_next_instruction_if(condition)
            },
            Instruction::SNER(reg1, reg2) => {
                let condition = self.registers[reg1 as usize] != self.registers[reg2 as usize];
                self.skip_next_instruction_if(condition)
            },
            Instruction::LD(reg, value) => self.load_val(reg, value),
            Instruction::ADD(reg, value) => self.add_val(reg, value),
            Instruction::LDR(reg1, reg2) => self.load_reg(reg1, reg2),
            Instruction::OR(reg1, reg2) => self.or(reg1, reg2),
            Instruction::AND(reg1, reg2) => self.and(reg1, reg2),
            Instruction::XOR(reg1, reg2) => self.xor(reg1, reg2),
            Instruction::ADDR(reg1, reg2) => self.add_registers(reg1, reg2),
            Instruction::SUBR(reg1, reg2) => self.sub_reg(reg1, reg2),
            Instruction::SHR(reg) => self.shr(reg),
            Instruction::SUBN(reg1, reg2) => self.subn_reg(reg1, reg2),
            Instruction::SHL(reg) => self.shl(reg),
            Instruction::LDA(addr) => self.load_addr(addr),
            Instruction::JUMPV0(addr) => self.jump_addr(addr),
            Instruction::RND(reg, value) => self.rand(reg, value, random),
            Instruction::DRW(reg1, reg2, n) => self.display(reg1, reg2, n),
            Instruction::SKP(reg) => self.skp(reg),
            Instruction::SKNP(reg) => self.sknp(reg),
            Instruction::LDT(reg) => self.load_delay_timer(reg),
            Instruction::WKEY(reg) => self.wait_key(reg),
            Instruction::SDT(reg) => self.set_delay_timer_reg(reg),
            Instruction::SST(reg) => self.set_sound_timer_reg(reg),
            Instruction::ADDI(reg) => self.add_index(reg),
            Instruction::LDSPR(reg) => self.load_sprite(reg),
            Instruction::STBCD(reg) => self.store_bcd(reg),
            Instruction::STREG(reg) => self.save_registers(reg),
            Instruction::LDREG(reg) => self.load_registers(reg),
        }
        Ok(())
    }

    /// One fetch, decode and execute. A failure leaves the machine as it was
    /// before the fetch. Where the instruction fetched is no `RND`, the
    /// outcome is determined.
    pub fn emulate_cycle(&mut self) -> (r: Result<(), ProcessorError>)
        ensures
            exists|random: u8| old(self)@.cycles_to(random, r, final(self)@),
            !old(self)@.draws_random() ==> old(self)@.cycles_to(0, r, final(self)@),
    {
        proof {
            use_type_invariant(&*self);
        }
        let saved: u16 = self.pc;
        let opcode: u16 = match self.fetch_instruction() {
            Ok(opcode) => opcode,
            Err(e) => {
                assert(old(self)@.cycles_to(0, Err::<(), ProcessorError>(e), self@));
                return Err(e);
            },
        };
        let instruction = Processor::decode_instruction(opcode);
        let ghost fetched = self@;
        let r = self.execute_instruction(instruction);
        let ghost executed = self@;
        if r.is_err() {
            proof {
                use_type_invariant(&*self);
            }
            self.pc = saved;
        }
        proof {
            let random = choose|random: u8| fetched.executes_to(instruction, random, r, executed);
            assert(old(self)@.cycles_to(random, r, self@));
        }
        r
    }

    fn clear_display(&mut self)
        ensures
            final(self)@ == old(self)@.clear_display(),
    {
        proof {
            use_type_invariant(&*self);
        }
        self.display = [0; DISPLAY_SIZE];
    }

    fn ret(&mut self)
        requires
            old(self)@.sp > 0,
        ensures
            final(self)@ == old(self)@.ret(),
    {
        proof {
            use_type_invariant(&*self);
        }
        self.sp -= 1;
        self.pc = self.stack[self.sp as usize];
    }

    fn jump(&mut self, addr: u16)
        ensures
            final(self)@ == old(self)@.jump(addr),
    {
        proof {
            use_type_invariant(&*self);
        }
        self.pc = addr;
    }

    fn call(&mut self, addr: u16)
        requires
            old(self)@.sp < STACK_SIZE,
        ensures
            final(self)@ == old(self)@.call(addr),
    {
        proof {
            use_type_invariant(&*self);
        }
        self.stack[self.sp as usize] = self.pc;
        self.sp += 1;
        self.pc = addr;
    }

    fn skip_next_instruction_if(&mut self, condition: bool)
        requires
            old(self)@.skip_fault(condition) is None,
        ensures
            final(self)@ == old(self)@.skip_next_instruction_if(condition),
    {
        proof {
            use_type_invariant(&*self);
        }
        if condition {
            self.pc += 2;
        }
    }

    fn load_val(&mut self, reg: u8, value: u8)
        requires
            reg < N_REGISTERS,
        ensures
            final(self)@ == old(self)@.with_reg(reg, value),
    {
        proof {
            use_type_invariant(&*self);
        }
        self.registers[reg as usize] = value;
    }

    fn add_val(&mut self, reg: u8, value: u8)
        requires
            reg < N_REGISTERS,
        ensures
            final(self)@ == old(self)@.add_val(reg, value),
    {
        proof {
            use_type_invariant(&*self);
        }
        self.registers[reg as usize] = self.registers[reg as usize].wrapping_add(value);
    }

    fn load_reg(&mut self, reg1: u8, reg2: u8)
        requires
            reg1 < N_REGISTERS,
            reg2 < N_REGISTERS,
        ensures
            final(self)@ == old(self)@.with_reg(reg1, old(self)@.reg(reg2)),
    {
        proof {
            use_type_invariant(&*self);
        }
        self.registers[reg1 as usize] = self.registers[reg2 as usize];
    }

    fn or(&mut self, reg1: u8, reg2: u8)
        requires
            reg1 < N_REGISTERS,
            reg2 < N_REGISTERS,
        ensures
            final(self)@ == old(self)@.or_reg(reg1, reg2),
    {
        proof {
            use_type_invariant(&*self);
        }
        self.registers[reg1 as usize] = self.registers[reg1 as usize]
            | self.registers[reg2 as usize];
    }

    fn and(&mut self, reg1: u8, reg2: u8)
        requires
            reg1 < N_REGISTERS,
            reg2 < N_REGISTERS,
        ensures
            final(self)@ == old(self)@.and_reg(reg1, reg2),
    {
        proof {
            use_type_invariant(&*self);
        }
        self.registers[reg1 as usize] = self.registers[reg1 as usize]
            & self.registers[reg2 as usize];
    }

    fn xor(&mut self, reg1: u8, reg2: u8)
        requires
            reg1 < N_REGISTERS,
            reg2 < N_REGISTERS,
        ensures
            final(self)@ == old(self)@.xor_reg(reg1, reg2),
    {
        proof {
            use_type_invariant(&*self);
        }
        self.registers[reg1 as usize] = self.registers[reg1 as usize]
            ^ self.registers[reg2 as usize];
    }

    fn add_registers(&mut self, reg1: u8, reg2: u8)
        requires
            reg1 < N_REGISTERS,
            reg2 < N_REGISTERS,
        ensures
            final(self)@ == old(self)@.add_registers(reg1, reg2),
    {
        proof {
            use_type_invariant(&*self);
        }
        let augend: u8 = self.registers[reg1 as usize];
        let addend: u8 = self.registers[reg2 as usize];
        let result: u8 = augend.wrapping_add(addend);
        let overflow: bool = addend > u8::MAX - augend;
        self.registers[reg1 as usize] = result;
        self.registers[FLAG_REGISTER] = if overflow {
            1
        } else {
            0
        };
    }

    fn sub_reg(&mut self, reg1: u8, reg2: u8)
        requires
            reg1 < N_REGISTERS,
            reg2 < N_REGISTERS,
        ensures
            final(self)@ == old(self)@.sub_reg(reg1, reg2),
    {
        proof {
            use_type_invariant(&*self);
        }
        if self.registers[reg1 as usize] > self.registers[reg2 as usize] {
            self.registers[FLAG_REGISTER] = 1;
        } else {
            self.registers[FLAG_REGISTER] = 0;
        }
        self.registers[reg1 as usize] = self.registers[reg1 as usize].wrapping_sub(
            self.registers[reg2 as usize],
        );
    }

    fn shr(&mut self, reg: u8)
        requires
            reg < N_REGISTERS,
        ensures
            final(self)@ == old(self)@.shr(reg),
    {
        proof {
            use_type_invariant(&*self);
        }
        let value: u8 = self.registers[reg as usize];
        assert(value & 0x1 == value % 2) by (bit_vector);
        self.registers[FLAG_REGISTER] = value & 0x1;
        let flagged: u8 = self.registers[reg as usize];
        assert(flagged >> 1 == flagged / 2) by (bit_vector);
        self.registers[reg as usize] = flagged >> 1;
    }

    fn subn_reg(&mut self, reg1: u8, reg2: u8)
        requires
            reg1 < N_REGISTERS,
            reg2 < N_REGISTERS,
        ensures
            final(self)@ == old(self)@.subn_reg(reg1, reg2),
    {
        proof {
            use_type_invariant(&*self);
        }
        if self.registers[reg1 as usize] > self.registers[reg2 as usize] {
            self.registers[FLAG_REGISTER] = 0;
        } else {
            self.registers[FLAG_REGISTER] = 1;
        }
        self.registers[reg1 as usize] = self.registers[reg2 as usize].wrapping_sub(
            self.registers[reg1 as usize],
        );
    }

    fn shl(&mut self, reg: u8)
        requires
            reg < N_REGISTERS,
        ensures
            final(self)@ == old(self)@.shl(reg),
    {
        proof {
            use_type_invariant(&*self);
        }
        let value: u8 = self.registers[reg as usize];
        assert(value >> 7 == value / 128) by (bit_vector);
        self.registers[FLAG_REGISTER] = value >> 7;
        let flagged: u8 = self.registers[reg as usize];
        let shifted: u8 = flagged.wrapping_shl(1);
        assert(shifted == (flagged * 2) % 256) by (bit_vector)
            requires
                shifted == flagged << (1u32 % 8u32),
        ;
        self.registers[reg as usize] = shifted;
    }

    fn load_addr(&mut self, addr: u16)
        ensures
            final(self)@ == old(self)@.load_addr(addr),
    {
        proof {
            use_type_invariant(&*self);
        }
        self.index = addr;
    }

    fn jump_addr(&mut self, addr: u16)
        requires
            addr < 4096,
        ensures
            final(self)@ == old(self)@.jump_addr(addr),
    {
        proof {
            use_type_invariant(&*self);
        }
        self.pc = addr + self.registers[0] as u16;
    }

    fn rand(&mut self, reg: u8, value: u8, random: u8)
        requires
            reg < N_REGISTERS,
        ensures
            final(self)@ == old(self)@.rand(reg, value, random),
    {
        proof {
            use_type_invariant(&*self);
        }
        self.registers[reg as usize] = random & value;
    }

    fn skp(&mut self, reg: u8)
        requires
            reg < N_REGISTERS,
            old(self)@.key_fault(reg, true) is None,
        ensures
            final(self)@ == old(self)@.skip_next_instruction_if(old(self)@.key_pressed(reg)),
    {
        let pressed: bool = self.keys_pressed[self.registers[reg as usize] as usize];
        self.skip_next_instruction_if(pressed);
    }

    fn sknp(&mut self, reg: u8)
        requires
            reg < N_REGISTERS,
            old(self)@.key_fault(reg, false) is None,
        ensures
            final(self)@ == old(self)@.skip_next_instruction_if(!old(self)@.key_pressed(reg)),
    {
        let pressed: bool = self.keys_pressed[self.registers[reg as usize] as usize];
        self.skip_next_instruction_if(!pressed);
    }

    fn load_delay_timer(&mut self, reg: u8)
        requires
            reg < N_REGISTERS,
        ensures
            final(self)@ == old(self)@.with_reg(reg, old(self)@.delay_timer),
    {
        proof {
            use_type_invariant(&*self);
        }
        self.registers[reg as usize] = self.delay_timer;
    }

    fn wait_key(&mut self, reg: u8)
        requires
            reg < N_REGISTERS,
            any_pressed(old(self)@.keys) || old(self)@.pc >= 2,
        ensures
            final(self)@ == old(self)@.wait_key(reg),
    {
        proof {
            use_type_invariant(&*self);
        }
        match self.first_pressed_key() {
            Some(key) => {
                self.registers[reg as usize] = key;
            },
            None => {
                self.pc -= 2;
            },
        }
    }

    fn set_delay_timer_reg(&mut self, reg: u8)
        requires
            reg < N_REGISTERS,
        ensures
            final(self)@ == old(self)@.with_delay_timer(old(self)@.reg(reg)),
    {
        proof {
            use_type_invariant(&*self);
        }
        self.delay_timer = self.registers[reg as usize];
    }

    fn set_sound_timer_reg(&mut self, reg: u8)
        requires
            reg < N_REGISTERS,
        ensures
            final(self)@ == old(self)@.with_sound_timer(old(self)@.reg(reg)),
    {
        proof {
            use_type_invariant(&*self);
        }
        self.sound_timer = self.registers[reg as usize];
    }

    fn add_index(&mut self, reg: u8)
        requires
            reg < N_REGISTERS,
        ensures
            final(self)@ == old(self)@.add_index(reg),
    {
        proof {
            use_type_invariant(&*self);
        }
        self.index = self.index.wrapping_add(self.registers[reg as usize] as u16);
    }

    fn load_sprite(&mut self, reg: u8)
        requires
            reg < N_REGISTERS,
        ensures
            final(self)@ == old(self)@.load_sprite(reg),
    {
        proof {
            use_type_invariant(&*self);
        }
        let value: u8 = self.registers[reg as usize];
        let digit: u8 = value & 0x0f;
        assert(digit == value % 16) by (bit_vector)
            requires
                digit == value & 0x0f,
        ;
        let glyph: u16 = GLYPH_SIZE as u16;
        assert(digit * glyph == digit * 5) by (nonlinear_arith)
            requires
                glyph == 5,
        ;
        self.index = FONTSET_START as u16 + (digit as u16) * glyph;
    }

    fn store_bcd(&mut self, reg: u8)
        requires
            reg < N_REGISTERS,
            old(self)@.memory_fault(3) is None,
        ensures
            final(self)@ == old(self)@.store_bcd(reg),
    {
        proof {
            use_type_invariant(&*self);
        }
        let value: u8 = self.registers[reg as usize];
        let at: usize = self.index as usize;
        self.memory[at] = value / 100;
        self.memory[at + 1] = (value / 10) % 10;
        self.memory[at + 2] = value % 10;
    }

    fn save_registers(&mut self, reg: u8)
        requires
            reg < N_REGISTERS,
            old(self)@.memory_fault(reg + 1) is None,
        ensures
            final(self)@ == old(self)@.save_registers(reg),
    {
        let at: usize = self.index as usize;
        let mut i: usize = 0;
        while i < reg as usize + 1
            invariant
                i <= reg + 1,
                reg < N_REGISTERS,
                at == old(self)@.index,
                at + reg < MEMORY_SIZE,
                self@ == (Machine { memory: self.memory@, ..old(self)@ }),
                forall|a: int|
                    0 <= a < MEMORY_SIZE ==> self.memory@[a] == if at <= a < at + i {
                        old(self)@.registers[a - at]
                    } else {
                        old(self)@.memory[a]
                    },
            decreases reg + 1 - i,
        {
            proof {
                use_type_invariant(&*self);
            }
            self.memory[at + i] = self.registers[i];
            i += 1;
        }
    }

    fn load_registers(&mut self, reg: u8)
        requires
            reg < N_REGISTERS,
            old(self)@.memory_fault(reg + 1) is None,
        ensures
            final(self)@ == old(self)@.load_registers(reg),
    {
        let at: usize = self.index as usize;
        let mut i: usize = 0;
        while i < reg as usize + 1
            invariant
                i <= reg + 1,
                reg < N_REGISTERS,
                at == old(self)@.index,
                at + reg < MEMORY_SIZE,
                self@ == (Machine { registers: self.registers@, ..old(self)@ }),
                forall|k: int|
                    0 <= k < N_REGISTERS ==> self.registers@[k] == if k < i {
                        old(self)@.memory[at + k]
                    } else {
                        old(self)@.registers[k]
                    },
            decreases reg + 1 - i,
        {
            proof {
                use_type_invariant(&*self);
            }
            self.registers[i] = self.memory[at + i];
            i += 1;
        }
    }

    fn display(&mut self, reg1: u8, reg2: u8, n: u8)
        requires
            reg1 < N_REGISTERS,
            reg2 < N_REGISTERS,
            n < 16,
            old(self)@.memory_fault(n as int) is None,
        ensures
            final(self)@ == old(self)@.display(reg1, reg2, n),
    {
        proof {
            use_type_invariant(&*self);
        }
        let x: usize = (self.registers[reg1 as usize] as usize) % DISPLAY_WIDTH;
        let y: usize = (self.registers[reg2 as usize] as usize) % DISPLAY_HEIGHT;
        self.registers[FLAG_REGISTER] = 0;
        let ghost before = old(self)@;
        let mut i: u8 = 0;
        while i < n
            invariant
                i <= n < 16,
                x < DISPLAY_WIDTH,
                y < DISPLAY_HEIGHT,
                before == old(self)@,
                before.wf(),
                n > 0 ==> before.index + n <= MEMORY_SIZE,
                self.registers@[FLAG_REGISTER as int] <= 1,
                self@ == (Machine {
                    display: self.display@,
                    ..before.with_flag(self.registers@[FLAG_REGISTER as int])
                }),
                self.registers@[FLAG_REGISTER as int] == 1 <==> before.sprite_collides(
                    x as int,
                    y as int,
                    i as int,
                ),
                forall|k: int|
                    0 <= k < DISPLAY_SIZE ==> self.display@[k] == if before.sprite_covers(
                        x as int,
                        y as int,
                        i as int,
                        0,
                        k,
                    ) {
                        before.display[k] ^ 1
                    } else {
                        before.display[k]
                    },
            decreases n - i,
        {
            let sprite_byte: u8 = self.memory[self.index as usize + i as usize];
            let mut j: u8 = 0;
            while j < 8
                invariant
                    j <= 8,
                    i < n < 16,
                    x < DISPLAY_WIDTH,
                    y < DISPLAY_HEIGHT,
                    before == old(self)@,
                    before.wf(),
                    before.index + n <= MEMORY_SIZE,
                    sprite_byte == before.memory[before.index + i],
                    self.registers@[FLAG_REGISTER as int] <= 1,
                    self@ == (Machine {
                        display: self.display@,
                        ..before.with_flag(self.registers@[FLAG_REGISTER as int])
                    }),
                    self.registers@[FLAG_REGISTER as int] == 1 <==> exists|k: int|
                        #[trigger] before.sprite_covers(x as int, y as int, i as int, j as int, k)
                            && before.display[k] != 0,
                    forall|k: int|
                        0 <= k < DISPLAY_SIZE ==> self.display@[k] == if before.sprite_covers(
                            x as int,
                            y as int,
                            i as int,
                            j as int,
                            k,
                        ) {
                            before.display[k] ^ 1
                        } else {
                            before.display[k]
                        },
                decreases 8 - j,
            {
                proof {
                    use_type_invariant(&*self);
                }
                let pixel: u8 = (sprite_byte >> (7 - j)) & 0x1;
                let row: usize = y + i as usize;
                let col: usize = x + j as usize;
                if pixel > 0 && row < DISPLAY_HEIGHT && col < DISPLAY_WIDTH {
                    let cell: usize = row * DISPLAY_WIDTH + col;
                    let lit: u8 = self.display[cell];
                    if lit > 0 {
                        self.registers[FLAG_REGISTER] = 1;
                    }
                    assert(lit ^ 1 <= 1) by (bit_vector)
                        requires
                            lit <= 1,
                    ;
                    self.display[cell] = lit ^ 1;
                    proof {
                        assert(before.sprite_covers(x as int, y as int, i as int, j + 1, cell as int));
                        assert(!before.sprite_covers(x as int, y as int, i as int, j as int, cell as int));
                        assert(before.display[cell as int] == lit);
                        assert forall|k: int|
                            #![trigger before.sprite_covers(x as int, y as int, i as int, j + 1, k)]
                            #![trigger before.sprite_covers(x as int, y as int, i as int, j as int, k)]
                            before.sprite_covers(x as int, y as int, i as int, j + 1, k) <==> (
                            before.sprite_covers(x as int, y as int, i as int, j as int, k) || k
                                == cell) by {}
                    }
                } else {
                    assert forall|k: int|
                        #![trigger before.sprite_covers(x as int, y as int, i as int, j + 1, k)]
                        #![trigger before.sprite_covers(x as int, y as int, i as int, j as int, k)]
                        before.sprite_covers(x as int, y as int, i as int, j + 1, k)
                            <==> before.sprite_covers(x as int, y as int, i as int, j as int, k) by {}
                }
                j += 1;
            }
            assert forall|k: int|
                #![trigger before.sprite_covers(x as int, y as int, i as int, 8, k)]
                #![trigger before.sprite_covers(x as int, y as int, i + 1, 0, k)]
                before.sprite_covers(x as int, y as int, i as int, 8, k) <==> before.sprite_covers(
                    x as int,
                    y as int,
                    i + 1,
                    0,
                    k,
                ) by {}
            i += 1;
        }
    }
}

/// Draws one byte from `rand::random`, which asks the thread-local generator
/// of the `rand` crate for a uniformly distributed value. Nothing is claimed
/// of the byte: every value of a `u8` may come back. (`rand` panics if the
/// operating system cannot seed the generator.)
#[verifier::external_body]
fn random_byte() -> (byte: u8) {
    rand::random::<u8>()
}

} // verus!
