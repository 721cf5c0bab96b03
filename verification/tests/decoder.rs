use chip8::instruction::Instruction;
use chip8::processor::Processor;

fn decode(opcode: u16) -> Instruction {
    Processor::decode_instruction(opcode)
}

#[test]
fn decodes_the_system_group() {
    assert_eq!(decode(0x00E0), Instruction::CLS);
    assert_eq!(decode(0x00EE), Instruction::RET);
    assert_eq!(decode(0x0000), Instruction::NOP);
    assert_eq!(decode(0x0123), Instruction::NOP);
    // only the low byte selects within the group
    assert_eq!(decode(0x0AE0), Instruction::CLS);
    assert_eq!(decode(0x0FEE), Instruction::RET);
}

#[test]
fn decodes_jumps_and_calls_with_a_twelve_bit_address() {
    assert_eq!(decode(0x1234), Instruction::JUMP(0x234));
    assert_eq!(decode(0x1FFF), Instruction::JUMP(0xFFF));
    assert_eq!(decode(0x2ABC), Instruction::CALL(0xABC));
    assert_eq!(decode(0xA123), Instruction::LDA(0x123));
    assert_eq!(decode(0xB200), Instruction::JUMPV0(0x200));
}

#[test]
fn decodes_register_and_immediate_forms() {
    assert_eq!(decode(0x3A12), Instruction::SE(0xA, 0x12));
    assert_eq!(decode(0x4BFF), Instruction::SNE(0xB, 0xFF));
    assert_eq!(decode(0x5120), Instruction::SER(1, 2));
    assert_eq!(decode(0x6005), Instruction::LD(0, 5));
    assert_eq!(decode(0x7003), Instruction::ADD(0, 3));
    assert_eq!(decode(0x9EF0), Instruction::SNER(0xE, 0xF));
    assert_eq!(decode(0xC37F), Instruction::RND(3, 0x7F));
    assert_eq!(decode(0xD125), Instruction::DRW(1, 2, 5));
}

#[test]
fn decodes_the_arithmetic_group_by_its_low_nibble() {
    assert_eq!(decode(0x8120), Instruction::LDR(1, 2));
    assert_eq!(decode(0x8121), Instruction::OR(1, 2));
    assert_eq!(decode(0x8122), Instruction::AND(1, 2));
    assert_eq!(decode(0x8123), Instruction::XOR(1, 2));
    assert_eq!(decode(0x8124), Instruction::ADDR(1, 2));
    assert_eq!(decode(0x8125), Instruction::SUBR(1, 2));
    assert_eq!(decode(0x8126), Instruction::SHR(1));
    assert_eq!(decode(0x8127), Instruction::SUBN(1, 2));
    assert_eq!(decode(0x812E), Instruction::SHL(1));
    for low in [0x8u16, 0x9, 0xA, 0xB, 0xC, 0xD, 0xF] {
        assert_eq!(decode(0x8120 | low), Instruction::NOP);
    }
}

#[test]
fn decodes_the_key_group() {
    assert_eq!(decode(0xE19E), Instruction::SKP(1));
    assert_eq!(decode(0xEFA1), Instruction::SKNP(0xF));
    assert_eq!(decode(0xE100), Instruction::NOP);
    assert_eq!(decode(0xE19F), Instruction::NOP);
}

#[test]
fn decodes_the_timer_and_memory_group() {
    assert_eq!(decode(0xF207), Instruction::LDT(2));
    assert_eq!(decode(0xF20A), Instruction::WKEY(2));
    assert_eq!(decode(0xF215), Instruction::SDT(2));
    assert_eq!(decode(0xF218), Instruction::SST(2));
    assert_eq!(decode(0xF21E), Instruction::ADDI(2));
    assert_eq!(decode(0xF229), Instruction::LDSPR(2));
    assert_eq!(decode(0xF233), Instruction::STBCD(2));
    assert_eq!(decode(0xF255), Instruction::STREG(2));
    assert_eq!(decode(0xF265), Instruction::LDREG(2));
    assert_eq!(decode(0xF2FF), Instruction::NOP);
    assert_eq!(decode(0xF200), Instruction::NOP);
}

#[test]
fn every_opcode_decodes_to_an_instruction_with_operands_in_range() {
    for opcode in 0..=u16::MAX {
        let instruction = decode(opcode);
        assert!(instruction.is_wf(), "opcode {:#06x} gave {:?}", opcode, instruction);
    }
}

#[test]
fn operands_are_taken_from_their_nibbles() {
    for opcode in 0x8000..=0x8FFFu16 {
        let x = ((opcode >> 8) & 0xF) as u8;
        let y = ((opcode >> 4) & 0xF) as u8;
        if opcode & 0xF == 4 {
            assert_eq!(decode(opcode), Instruction::ADDR(x, y));
        }
    }
    for opcode in 0xD000..=0xDFFFu16 {
        let x = ((opcode >> 8) & 0xF) as u8;
        let y = ((opcode >> 4) & 0xF) as u8;
        let n = (opcode & 0xF) as u8;
        assert_eq!(decode(opcode), Instruction::DRW(x, y, n));
    }
}

#[test]
fn operands_out_of_range_are_not_well_formed() {
    assert!(!Instruction::LD(16, 0).is_wf());
    assert!(!Instruction::ADDR(0, 16).is_wf());
    assert!(!Instruction::DRW(0, 0, 16).is_wf());
    assert!(!Instruction::JUMP(0x1000).is_wf());
    assert!(Instruction::JUMP(0x0FFF).is_wf());
    assert!(Instruction::DRW(15, 15, 15).is_wf());
}
