use chip8::insn::decode;
use chip8::Instruction;

#[test]
fn decode_extracts_operand_fields() {
    assert_eq!(decode(0x00E0), Instruction::ClearScreen);
    assert_eq!(decode(0x00EE), Instruction::Ret);
    assert_eq!(decode(0x1234), Instruction::Jump(0x234));
    assert_eq!(decode(0x2ABC), Instruction::Call(0xABC));
    assert_eq!(decode(0x3A12), Instruction::SkipEqImm(0xA, 0x12));
    assert_eq!(decode(0x4A12), Instruction::SkipNeImm(0xA, 0x12));
    assert_eq!(decode(0x5AB0), Instruction::SkipEqReg(0xA, 0xB));
    assert_eq!(decode(0x6ABC), Instruction::LoadImm(0xA, 0xBC));
    assert_eq!(decode(0x7A01), Instruction::AddImm(0xA, 0x01));
    assert_eq!(decode(0x9AB0), Instruction::SkipNeReg(0xA, 0xB));
    assert_eq!(decode(0xA123), Instruction::SetIndex(0x123));
    assert_eq!(decode(0xB001), Instruction::JumpOffset(0xB001));
    assert_eq!(decode(0xC50F), Instruction::Random(0x5, 0x0F));
    assert_eq!(decode(0xD0A1), Instruction::Draw(0x0, 0xA, 0x1));
}

#[test]
fn decode_alu_group_by_low_nibble() {
    assert_eq!(decode(0x8AB0), Instruction::Assign(0xA, 0xB));
    assert_eq!(decode(0x8AB1), Instruction::Or(0xA, 0xB));
    assert_eq!(decode(0x8AB2), Instruction::And(0xA, 0xB));
    assert_eq!(decode(0x8AB3), Instruction::Xor(0xA, 0xB));
    assert_eq!(decode(0x8AB4), Instruction::AddCarry(0xA, 0xB));
    assert_eq!(decode(0x8AB5), Instruction::SubBorrow(0xA, 0xB));
    assert_eq!(decode(0x8AB6), Instruction::ShiftRight(0xA));
    assert_eq!(decode(0x8AB7), Instruction::SubNBorrow(0xA, 0xB));
    assert_eq!(decode(0x8ABE), Instruction::ShiftLeft(0xA));
    assert_eq!(decode(0x8AB8), Instruction::Unknown(0x8AB8));
}

#[test]
fn decode_key_and_misc_groups_by_low_byte() {
    assert_eq!(decode(0xEA9E), Instruction::SkipKey(0xA));
    assert_eq!(decode(0xEAA1), Instruction::SkipNoKey(0xA));
    assert_eq!(decode(0xEA00), Instruction::Unknown(0xEA00));
    assert_eq!(decode(0xFA07), Instruction::LoadDelay(0xA));
    assert_eq!(decode(0xFA0A), Instruction::WaitKey(0xA));
    assert_eq!(decode(0xFA15), Instruction::SetDelay(0xA));
    assert_eq!(decode(0xFA18), Instruction::SetSound(0xA));
    assert_eq!(decode(0xFA1E), Instruction::AddIndex(0xA));
    assert_eq!(decode(0xFA29), Instruction::FontAddr(0xA));
    assert_eq!(decode(0xFA33), Instruction::StoreBcd(0xA));
    assert_eq!(decode(0xFA55), Instruction::DumpRegs(0xA));
    assert_eq!(decode(0xFA65), Instruction::LoadRegs(0xA));
    assert_eq!(decode(0xFA99), Instruction::Unknown(0xFA99));
}

#[test]
fn group_zero_dispatches_on_the_low_byte() {
    // Within group 0 only the low byte decides, as in the original machine.
    assert_eq!(decode(0x01E0), Instruction::ClearScreen);
    assert_eq!(decode(0x0BEE), Instruction::Ret);
    assert_eq!(decode(0x0123), Instruction::Unknown(0x0123));
}
