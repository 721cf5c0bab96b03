//! What holds of the machine in every state, proved from the definitions in
//! [`crate::machine`].

use crate::consts::{FLAG_REGISTER, N_REGISTERS};
use crate::instruction::{decode, Instruction};
use crate::machine::{any_pressed, first_pressed, is_first_pressed, Machine};
use vstd::prelude::*;

verus! {

/// The machine at construction meets the invariant, and so does a machine
/// after loading a program.
pub proof fn lemma_initial_and_loaded_wf(m: Machine, rom: Seq<u8>)
    requires
        m.wf(),
    ensures
        Machine::initial().wf(),
        m.loaded(rom).wf(),
{
}

/// An instruction that is not refused keeps the invariant: the parts keep
/// their sizes, the stack pointer stays within the stack, and every cell of
/// the framebuffer stays 0 or 1.
pub proof fn lemma_step_wf(m: Machine, instruction: Instruction, random: u8)
    requires
        m.wf(),
        m.fault(instruction) is None,
    ensures
        m.step(instruction, random).wf(),
{
    let next = m.step(instruction, random);
    assert forall|k: int| 0 <= k < next.display.len() implies next.display[k] <= 1 by {
        let cell = m.display[k];
        assert(cell ^ 1 <= 1) by (bit_vector)
            requires
                cell <= 1,
        ;
    }
}

/// A whole cycle that succeeds keeps the invariant.
pub proof fn lemma_cycle_wf(m: Machine, random: u8)
    requires
        m.wf(),
    ensures
        m.cycle(random) matches Ok(next) ==> next.wf(),
{
    if m.cycle(random) is Ok {
        lemma_step_wf(m.fetched(), decode(m.opcode()), random);
    }
}

/// Only `RND` depends on the byte drawn. Every other instruction is a function
/// of the state alone.
pub proof fn lemma_random_only_for_rnd(m: Machine, instruction: Instruction, a: u8, b: u8)
    requires
        !(instruction is RND),
    ensures
        m.step(instruction, a) == m.step(instruction, b),
{
}

/// `ADDR`: the flag register is 1 exactly if the sum exceeds 255, and `V[x]`
/// is the sum modulo 256. The first holds for every operand, the second where
/// `V[x]` is not the flag register itself.
pub proof fn lemma_add_registers_flag(m: Machine, x: u8, y: u8, random: u8)
    requires
        m.wf(),
        x < N_REGISTERS,
        y < N_REGISTERS,
    ensures
        m.step(Instruction::ADDR(x, y), random).reg(FLAG_REGISTER as u8) == (if m.reg(x) + m.reg(y)
            > 255 {
            1u8
        } else {
            0u8
        }),
        x != FLAG_REGISTER ==> m.step(Instruction::ADDR(x, y), random).reg(x) == (m.reg(x) + m.reg(
            y,
        )) % 256,
        forall|z: u8|
            z < N_REGISTERS && z != x && z != FLAG_REGISTER ==> m.step(
                Instruction::ADDR(x, y),
                random,
            ).reg(z) == m.reg(z),
{
}

/// `SUBR`: the flag register is 1 exactly if `V[x] > V[y]` before the
/// subtraction, and `V[x]` is the difference modulo 256. Stated where neither
/// operand is the flag register.
pub proof fn lemma_sub_reg_flag(m: Machine, x: u8, y: u8, random: u8)
    requires
        m.wf(),
        x < FLAG_REGISTER,
        y < FLAG_REGISTER,
    ensures
        m.step(Instruction::SUBR(x, y), random).reg(FLAG_REGISTER as u8) == (if m.reg(x) > m.reg(y) {
            1u8
        } else {
            0u8
        }),
        m.step(Instruction::SUBR(x, y), random).reg(x) == (m.reg(x) - m.reg(y)) % 256,
        m.reg(x) >= m.reg(y) ==> m.step(Instruction::SUBR(x, y), random).reg(x) == m.reg(x) - m.reg(
            y,
        ),
        m.reg(x) < m.reg(y) ==> m.step(Instruction::SUBR(x, y), random).reg(x) == 256 + m.reg(x)
            - m.reg(y),
{
}

/// `SUBN`: the flag register is 0 exactly if `V[x] > V[y]` before the
/// subtraction, and `V[x]` is `V[y] - V[x]` modulo 256. Stated where neither
/// operand is the flag register.
pub proof fn lemma_subn_reg_flag(m: Machine, x: u8, y: u8, random: u8)
    requires
        m.wf(),
        x < FLAG_REGISTER,
        y < FLAG_REGISTER,
    ensures
        m.step(Instruction::SUBN(x, y), random).reg(FLAG_REGISTER as u8) == (if m.reg(x) > m.reg(y) {
            0u8
        } else {
            1u8
        }),
        m.step(Instruction::SUBN(x, y), random).reg(x) == (m.reg(y) - m.reg(x)) % 256,
        m.reg(y) >= m.reg(x) ==> m.step(Instruction::SUBN(x, y), random).reg(x) == m.reg(y) - m.reg(
            x,
        ),
        m.reg(y) < m.reg(x) ==> m.step(Instruction::SUBN(x, y), random).reg(x) == 256 + m.reg(y)
            - m.reg(x),
{
}

/// `SHR` and `SHL`: the flag register is the bit shifted out, and `V[x]` is
/// the other seven bits moved by one place. Stated where `V[x]` is not the
/// flag register.
pub proof fn lemma_shift_flag(m: Machine, x: u8, random: u8)
    requires
        m.wf(),
        x < FLAG_REGISTER,
    ensures
        m.step(Instruction::SHR(x), random).reg(FLAG_REGISTER as u8) == m.reg(x) & 1,
        m.step(Instruction::SHR(x), random).reg(x) == m.reg(x) >> 1,
        m.step(Instruction::SHL(x), random).reg(FLAG_REGISTER as u8) == m.reg(x) >> 7,
        m.step(Instruction::SHL(x), random).reg(x) == (m.reg(x) << 1) & 0xff,
{
    let value = m.reg(x);
    assert(value % 2 == value & 1 && value / 2 == value >> 1 && value / 128 == value >> 7 && (value
        * 2) % 256 == (value << 1) & 0xff) by (bit_vector);
}

/// The instructions that load, add an immediate or combine bitwise leave the
/// flag register alone, unless it is their own destination.
pub proof fn lemma_flag_untouched(m: Machine, x: u8, y: u8, byte: u8, random: u8)
    requires
        m.wf(),
        x < FLAG_REGISTER,
        y < N_REGISTERS,
    ensures
        m.step(Instruction::LD(x, byte), random).reg(FLAG_REGISTER as u8) == m.reg(
            FLAG_REGISTER as u8,
        ),
        m.step(Instruction::ADD(x, byte), random).reg(FLAG_REGISTER as u8) == m.reg(
            FLAG_REGISTER as u8,
        ),
        m.step(Instruction::ADD(x, byte), random).reg(x) == (m.reg(x) + byte) % 256,
        m.step(Instruction::LDR(x, y), random).reg(FLAG_REGISTER as u8) == m.reg(
            FLAG_REGISTER as u8,
        ),
        m.step(Instruction::OR(x, y), random).reg(FLAG_REGISTER as u8) == m.reg(
            FLAG_REGISTER as u8,
        ),
        m.step(Instruction::AND(x, y), random).reg(FLAG_REGISTER as u8) == m.reg(
            FLAG_REGISTER as u8,
        ),
        m.step(Instruction::XOR(x, y), random).reg(FLAG_REGISTER as u8) == m.reg(
            FLAG_REGISTER as u8,
        ),
{
}

/// Drawing a sprite a second time at the same place undoes the first draw:
/// the framebuffer is as before. The second draw reports a collision exactly
/// if the first one lit a cell, that is if some cell under a set pixel of the
/// sprite was dark.
pub proof fn lemma_draw_twice(m: Machine, x0: int, y0: int, n: int)
    requires
        m.wf(),
    ensures
        m.draw(x0, y0, n).draw(x0, y0, n).display == m.display,
        m.draw(x0, y0, n).draw(x0, y0, n).reg(FLAG_REGISTER as u8) == 1 <==> exists|k: int|
            #[trigger] m.sprite_covers(x0, y0, n, 0, k) && m.display[k] == 0,
        m.draw(x0, y0, n).draw(x0, y0, n).reg(FLAG_REGISTER as u8) <= 1,
{
    let once = m.draw(x0, y0, n);
    let twice = once.draw(x0, y0, n);
    assert forall|k: int| 0 <= k < m.display.len() implies #[trigger] twice.display[k]
        == m.display[k] by {
        let cell = m.display[k];
        assert((cell ^ 1) ^ 1 == cell) by (bit_vector);
        assert(once.sprite_covers(x0, y0, n, 0, k) == m.sprite_covers(x0, y0, n, 0, k));
    }
    assert(twice.display =~= m.display);
    assert forall|k: int| #[trigger]
        m.sprite_covers(x0, y0, n, 0, k) implies (once.display[k] != 0 <==> m.display[k] == 0) by {
        let cell = m.display[k];
        assert((cell ^ 1) != 0 <==> cell == 0) by (bit_vector)
            requires
                cell <= 1,
        ;
    }
    assert forall|k: int|
        once.sprite_covers(x0, y0, n, 0, k) == #[trigger] m.sprite_covers(x0, y0, n, 0, k) by {}
    if once.sprite_collides(x0, y0, n) {
        let k = choose|k: int| #[trigger]
            once.sprite_covers(x0, y0, n, 0, k) && once.display[k] != 0;
        assert(m.sprite_covers(x0, y0, n, 0, k) && m.display[k] == 0);
    }
    if exists|k: int| #[trigger] m.sprite_covers(x0, y0, n, 0, k) && m.display[k] == 0 {
        let k = choose|k: int| #[trigger] m.sprite_covers(x0, y0, n, 0, k) && m.display[k] == 0;
        assert(once.sprite_covers(x0, y0, n, 0, k) && once.display[k] != 0);
    }
}

/// The same of the instruction: executing `DRW` twice with the same operands
/// leaves the framebuffer as it was, and the second execution sets the flag
/// register to 1 if the first one lit a cell. Stated where neither coordinate
/// register is the flag register, which the first draw overwrites.
pub proof fn lemma_drw_twice(m: Machine, x: u8, y: u8, n: u8, random: u8)
    requires
        m.wf(),
        x < FLAG_REGISTER,
        y < FLAG_REGISTER,
    ensures
        m.step(Instruction::DRW(x, y, n), random).step(Instruction::DRW(x, y, n), random).display
            == m.display,
        (exists|k: int|
            0 <= k < m.display.len() && m.display[k] == 0 && m.step(
                Instruction::DRW(x, y, n),
                random,
            ).display[k] == 1) ==> m.step(Instruction::DRW(x, y, n), random).step(
            Instruction::DRW(x, y, n),
            random,
        ).reg(FLAG_REGISTER as u8) == 1,
{
    let x0 = m.reg(x) as int % 64;
    let y0 = m.reg(y) as int % 32;
    let once = m.step(Instruction::DRW(x, y, n), random);
    lemma_draw_twice(m, x0, y0, n as int);
    assert(once == m.draw(x0, y0, n as int));
    assert(once.reg(x) == m.reg(x) && once.reg(y) == m.reg(y));
    if exists|k: int| 0 <= k < m.display.len() && m.display[k] == 0 && once.display[k] == 1 {
        let k = choose|k: int| 0 <= k < m.display.len() && m.display[k] == 0 && once.display[k] == 1;
        assert(m.sprite_covers(x0, y0, n as int, 0, k));
    }
}

/// At most one key is the lowest key held down, and there is one exactly if
/// some key is held down.
pub proof fn lemma_first_pressed(keys: Seq<bool>, k: int)
    requires
        is_first_pressed(keys, k),
    ensures
        any_pressed(keys),
        first_pressed(keys) == k,
{
}

/// Waiting for a key is a busy wait. With no key held down, a cycle on a
/// `WKEY` instruction leaves the whole machine as it was, the program counter
/// included, so the same instruction runs again however often the cycle is
/// repeated. With a key held down, the cycle moves the program counter past
/// the instruction and stores the lowest such key in `V[x]`.
pub proof fn lemma_wait_key_cycle(m: Machine, x: u8, random: u8)
    requires
        m.wf(),
        m.can_fetch(),
        decode(m.opcode()) == Instruction::WKEY(x),
    ensures
        !any_pressed(m.keys) ==> m.cycle(random) == Ok::<Machine, crate::error::ProcessorError>(m),
        forall|k: int|
            is_first_pressed(m.keys, k) ==> m.cycle(random) == Ok::<
                Machine,
                crate::error::ProcessorError,
            >(m.fetched().with_reg(x, k as u8)),
{
    crate::instruction::lemma_decode_wf(m.opcode());
    if !any_pressed(m.keys) {
        assert(m.fetched().wait_key(x) =~= m);
    }
    assert forall|k: int| is_first_pressed(m.keys, k) implies m.cycle(random) == Ok::<
        Machine,
        crate::error::ProcessorError,
    >(m.fetched().with_reg(x, k as u8)) by {
        lemma_first_pressed(m.keys, k);
    }
}

} // verus!
