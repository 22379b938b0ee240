use chip8::instruction::{decode, extract_address, xkk, xyn, Instruction};

#[test]
fn opcode_fields() {
    assert_eq!(extract_address(0x1A, 0xBC), 0xABC);
    assert_eq!(xkk(0x6C, 0x12), (0xC, 0x12));
    assert_eq!(xyn(0xD1, 0x25), (1, 2, 5));
}

#[test]
fn decodes_each_family() {
    assert_eq!(decode(0x00, 0xE0), Instruction::ClearScreen);
    assert_eq!(decode(0x00, 0xEE), Instruction::Return);
    assert_eq!(decode(0x12, 0x34), Instruction::Jump { addr: 0x234 });
    assert_eq!(decode(0x2F, 0xFF), Instruction::Call { addr: 0xFFF });
    assert_eq!(decode(0x3A, 0x07), Instruction::SkipIfEqual { x: 0xA, kk: 7 });
    assert_eq!(decode(0x4A, 0x07), Instruction::SkipIfNotEqual { x: 0xA, kk: 7 });
    assert_eq!(decode(0x51, 0x20), Instruction::SkipIfRegistersEqual { x: 1, y: 2 });
    assert_eq!(decode(0x6C, 0x12), Instruction::LoadImmediate { x: 0xC, kk: 0x12 });
    assert_eq!(decode(0x73, 0x01), Instruction::AddImmediate { x: 3, kk: 1 });
    assert_eq!(decode(0x81, 0x24), Instruction::Add { x: 1, y: 2 });
    assert_eq!(decode(0x81, 0x2E), Instruction::ShiftLeft { x: 1, y: 2 });
    assert_eq!(decode(0x91, 0x20), Instruction::SkipIfRegistersNotEqual { x: 1, y: 2 });
    assert_eq!(decode(0xA2, 0x02), Instruction::LoadIndex { addr: 0x202 });
    assert_eq!(decode(0xB3, 0x00), Instruction::JumpOffset { addr: 0x300 });
    assert_eq!(decode(0xC4, 0x0F), Instruction::Random { x: 4, kk: 0x0F });
    assert_eq!(decode(0xD1, 0x25), Instruction::Draw { x: 1, y: 2, n: 5 });
    assert_eq!(decode(0xE5, 0x9E), Instruction::SkipIfKey { x: 5 });
    assert_eq!(decode(0xE5, 0xA1), Instruction::SkipIfNotKey { x: 5 });
    assert_eq!(decode(0xF5, 0x0A), Instruction::WaitKey { x: 5 });
    assert_eq!(decode(0xF5, 0x65), Instruction::LoadRegisters { x: 5 });
}

#[test]
fn unknown_patterns_are_invalid() {
    assert_eq!(decode(0x00, 0x00), Instruction::Invalid { opcode: 0x0000 });
    assert_eq!(decode(0x81, 0x28), Instruction::Invalid { opcode: 0x8128 });
    assert_eq!(decode(0xE1, 0x00), Instruction::Invalid { opcode: 0xE100 });
    assert_eq!(decode(0xF1, 0x99), Instruction::Invalid { opcode: 0xF199 });
}
