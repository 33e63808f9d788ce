use chip8::decode::{decode, Instruction};

#[test]
fn decode_group_zero() {
    assert_eq!(decode(0x00E0), Some(Instruction::ClearScreen));
    assert_eq!(decode(0x00EE), Some(Instruction::Return));
    assert_eq!(decode(0x0000), Some(Instruction::MachineRoutine { address: 0x000 }));
    assert_eq!(decode(0x0123), Some(Instruction::MachineRoutine { address: 0x123 }));
    assert_eq!(decode(0x00E1), Some(Instruction::MachineRoutine { address: 0x0E1 }));
    assert_eq!(decode(0x0FFF), Some(Instruction::MachineRoutine { address: 0xFFF }));
}

#[test]
fn decode_flow_and_immediates() {
    assert_eq!(decode(0x1ABC), Some(Instruction::Jump { address: 0xABC }));
    assert_eq!(decode(0x2DEF), Some(Instruction::Call { address: 0xDEF }));
    assert_eq!(decode(0x3A42), Some(Instruction::SkipIfEqual { x: 0xA, value: 0x42 }));
    assert_eq!(decode(0x4B99), Some(Instruction::SkipIfNotEqual { x: 0xB, value: 0x99 }));
    assert_eq!(decode(0x5120), Some(Instruction::SkipIfRegistersEqual { x: 1, y: 2 }));
    assert_eq!(decode(0x512F), Some(Instruction::SkipIfRegistersEqual { x: 1, y: 2 }));
    assert_eq!(decode(0x6CFF), Some(Instruction::LoadImmediate { x: 0xC, value: 0xFF }));
    assert_eq!(decode(0x7001), Some(Instruction::AddImmediate { x: 0, value: 1 }));
    assert_eq!(decode(0x9EF0), Some(Instruction::SkipIfRegistersNotEqual { x: 0xE, y: 0xF }));
    assert_eq!(decode(0x9EF5), Some(Instruction::SkipIfRegistersNotEqual { x: 0xE, y: 0xF }));
    assert_eq!(decode(0xA123), Some(Instruction::SetIndex { address: 0x123 }));
    assert_eq!(decode(0xBFFF), Some(Instruction::JumpOffset { address: 0xFFF }));
    assert_eq!(decode(0xC7F0), Some(Instruction::Random { x: 7, mask: 0xF0 }));
    assert_eq!(decode(0xD12F), Some(Instruction::Draw { x: 1, y: 2, rows: 15 }));
    assert_eq!(decode(0xD000), Some(Instruction::Draw { x: 0, y: 0, rows: 0 }));
}

#[test]
fn decode_register_group() {
    assert_eq!(decode(0x8AB0), Some(Instruction::Assign { x: 0xA, y: 0xB }));
    assert_eq!(decode(0x8AB1), Some(Instruction::Or { x: 0xA, y: 0xB }));
    assert_eq!(decode(0x8AB2), Some(Instruction::And { x: 0xA, y: 0xB }));
    assert_eq!(decode(0x8AB3), Some(Instruction::Xor { x: 0xA, y: 0xB }));
    assert_eq!(decode(0x8AB4), Some(Instruction::AddCarry { x: 0xA, y: 0xB }));
    assert_eq!(decode(0x8AB5), Some(Instruction::Subtract { x: 0xA, y: 0xB }));
    assert_eq!(decode(0x8AB6), Some(Instruction::ShiftRight { x: 0xA, y: 0xB }));
    assert_eq!(decode(0x8AB7), Some(Instruction::ReverseSubtract { x: 0xA, y: 0xB }));
    assert_eq!(decode(0x8ABE), Some(Instruction::ShiftLeft { x: 0xA, y: 0xB }));
    for selector in [0x8u16, 0x9, 0xA, 0xB, 0xC, 0xD, 0xF] {
        assert_eq!(decode(0x8AB0 | selector), None);
    }
}

#[test]
fn decode_key_group() {
    assert_eq!(decode(0xE39E), Some(Instruction::SkipIfKey { x: 3 }));
    assert_eq!(decode(0xE3A1), Some(Instruction::SkipIfNotKey { x: 3 }));
    let mut known = 0;
    for low in 0..=255u16 {
        if decode(0xE300 | low).is_some() {
            known += 1;
        }
    }
    assert_eq!(known, 2);
}

#[test]
fn decode_misc_group() {
    assert_eq!(decode(0xF507), Some(Instruction::GetDelay { x: 5 }));
    assert_eq!(decode(0xF50A), Some(Instruction::WaitKey { x: 5 }));
    assert_eq!(decode(0xF515), Some(Instruction::SetDelay { x: 5 }));
    assert_eq!(decode(0xF518), Some(Instruction::SetSound { x: 5 }));
    assert_eq!(decode(0xF51E), Some(Instruction::AddIndex { x: 5 }));
    assert_eq!(decode(0xF529), Some(Instruction::FontAddress { x: 5 }));
    assert_eq!(decode(0xF533), Some(Instruction::StoreBcd { x: 5 }));
    assert_eq!(decode(0xF555), Some(Instruction::DumpRegisters { x: 5 }));
    assert_eq!(decode(0xF565), Some(Instruction::LoadRegisters { x: 5 }));
    let mut known = 0;
    for low in 0..=255u16 {
        if decode(0xFF00 | low).is_some() {
            known += 1;
        }
    }
    assert_eq!(known, 9);
}

#[test]
fn decode_knows_thirty_five_instructions() {
    let mut unknown = 0u32;
    for word in 0..=0xFFFFu16 {
        if decode(word).is_none() {
            unknown += 1;
        }
    }
    // 7 of 16 selectors in group 8, 254 of 256 in group E, 247 of 256 in group F.
    assert_eq!(unknown, 7 * 256 + 254 * 16 + 247 * 16);
}
