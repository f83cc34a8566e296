use joe::{decode_opcode, DecodeError, Instruction};

#[test]
fn test_decode_basic_instructions() {
    assert_eq!(decode_opcode(0x00E0).unwrap(), Instruction::Cls);
    assert_eq!(decode_opcode(0x00EE).unwrap(), Instruction::Ret);
    assert_eq!(decode_opcode(0x1234).unwrap(), Instruction::Jump { addr: 0x234 });
    assert_eq!(decode_opcode(0x6342).unwrap(), Instruction::LoadImm { vx: 3, value: 0x42 });
    assert_eq!(decode_opcode(0x7525).unwrap(), Instruction::AddImm { vx: 5, value: 0x25 });
    assert_eq!(decode_opcode(0xA123).unwrap(), Instruction::SetIndex { addr: 0x123 });
}

#[test]
fn test_decode_arithmetic() {
    assert_eq!(decode_opcode(0x8120).unwrap(), Instruction::LoadReg { vx: 1, vy: 2 });
    assert_eq!(decode_opcode(0x8341).unwrap(), Instruction::OrReg { vx: 3, vy: 4 });
    assert_eq!(decode_opcode(0x8564).unwrap(), Instruction::AddReg { vx: 5, vy: 6 });
}

#[test]
fn test_decode_display() {
    assert_eq!(decode_opcode(0xD125).unwrap(), Instruction::Draw { vx: 1, vy: 2, n: 5 });
}

#[test]
fn test_decode_unknown_instruction() {
    assert!(matches!(
        decode_opcode(0xFF00),
        Err(DecodeError::UnknownInstruction { opcode: 0xFF00 })
    ));
}

#[test]
fn test_mnemonic_generation() {
    assert_eq!(Instruction::Cls.mnemonic(), "CLS");
    assert_eq!(Instruction::Jump { addr: 0x234 }.mnemonic(), "JP 234");
    assert_eq!(Instruction::LoadImm { vx: 3, value: 0x42 }.mnemonic(), "LD V3, 42");
    assert_eq!(Instruction::Draw { vx: 1, vy: 2, n: 5 }.mnemonic(), "DRW V1, V2, 5");
}

#[test]
fn test_skip_instruction_detection() {
    assert!(Instruction::SkipEqImm { vx: 0, value: 42 }.is_skip_instruction());
    assert!(Instruction::SkipNeReg { vx: 1, vy: 2 }.is_skip_instruction());
    assert!(Instruction::SkipKeyPressed { vx: 0 }.is_skip_instruction());
    assert!(!Instruction::Jump { addr: 0x200 }.is_skip_instruction());
    assert!(!Instruction::LoadImm { vx: 0, value: 42 }.is_skip_instruction());
}

#[test]
fn decode_is_total_over_every_opcode() {
    let mut decoded = 0u32;
    for op in 0..=u16::MAX {
        match decode_opcode(op) {
            Ok(_) => decoded += 1,
            Err(DecodeError::UnknownInstruction { opcode }) => assert_eq!(opcode, op),
            Err(other) => panic!("unexpected error {:?}", other),
        }
    }
    assert!(decoded > 0 && decoded < 65536);
}

#[test]
fn decode_every_family() {
    assert_eq!(decode_opcode(0x0123).unwrap(), Instruction::Sys { addr: 0x123 });
    assert_eq!(decode_opcode(0x2ABC).unwrap(), Instruction::Call { addr: 0xABC });
    assert_eq!(decode_opcode(0x3A7F).unwrap(), Instruction::SkipEqImm { vx: 0xA, value: 0x7F });
    assert_eq!(decode_opcode(0x4B01).unwrap(), Instruction::SkipNeImm { vx: 0xB, value: 0x01 });
    assert_eq!(decode_opcode(0x5120).unwrap(), Instruction::SkipEqReg { vx: 1, vy: 2 });
    assert!(decode_opcode(0x5121).is_err());
    assert_eq!(decode_opcode(0x8AB6).unwrap(), Instruction::ShrReg { vx: 0xA });
    assert_eq!(decode_opcode(0x8ABE).unwrap(), Instruction::ShlReg { vx: 0xA });
    assert_eq!(decode_opcode(0x8AB7).unwrap(), Instruction::SubnReg { vx: 0xA, vy: 0xB });
    assert!(decode_opcode(0x8AB8).is_err());
    assert_eq!(decode_opcode(0x9340).unwrap(), Instruction::SkipNeReg { vx: 3, vy: 4 });
    assert_eq!(decode_opcode(0xB456).unwrap(), Instruction::JumpV0 { addr: 0x456 });
    assert_eq!(decode_opcode(0xC7F0).unwrap(), Instruction::Random { vx: 7, mask: 0xF0 });
    assert_eq!(decode_opcode(0xE5A1).unwrap(), Instruction::SkipKeyNotPressed { vx: 5 });
    assert!(decode_opcode(0xE500).is_err());
    assert_eq!(decode_opcode(0xF233).unwrap(), Instruction::StoreBcd { vx: 2 });
    assert_eq!(decode_opcode(0xF265).unwrap(), Instruction::LoadRegisters { vx: 2 });
    assert_eq!(decode_opcode(0xF21E).unwrap(), Instruction::AddIndex { vx: 2 });
}

#[test]
fn mnemonics_pad_addresses_and_bytes() {
    assert_eq!(Instruction::Sys { addr: 0x5 }.mnemonic(), "SYS 005");
    assert_eq!(Instruction::JumpV0 { addr: 0xABC }.mnemonic(), "JP V0, ABC");
    assert_eq!(Instruction::SkipNeImm { vx: 0xF, value: 0x7 }.mnemonic(), "SNE VF, 07");
    assert_eq!(Instruction::Random { vx: 0xA, mask: 0xFF }.mnemonic(), "RND VA, FF");
    assert_eq!(Instruction::LoadRegisters { vx: 4 }.mnemonic(), "LD V4, [I]");
    assert_eq!(Instruction::StoreRegisters { vx: 4 }.mnemonic(), "LD [I], V4");
    assert_eq!(Instruction::WaitKey { vx: 0 }.mnemonic(), "LD V0, K");
    assert_eq!(Instruction::LoadDelayTimer { vx: 0xB }.mnemonic(), "LD VB, DT");
    assert_eq!(Instruction::Draw { vx: 0, vy: 0, n: 0xF }.mnemonic(), "DRW V0, V0, F");
    assert_eq!(Instruction::SetIndex { addr: 0x1234 }.mnemonic(), "LD I, 1234");
}
