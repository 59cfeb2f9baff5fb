use chip8::decode::{
    decode, get_4bit_h, get_4bit_l, get_addr, get_byte, get_nibble, get_op, Instruction,
};

#[test]
fn field_extractors_split_a_word() {
    assert_eq!(get_op(0xD12F), 0xD);
    assert_eq!(get_addr(0xD12F), 0x12F);
    assert_eq!(get_nibble(0xD12F), 0xF);
    assert_eq!(get_4bit_h(0xD12F), 0x1);
    assert_eq!(get_4bit_l(0xD12F), 0x2);
    assert_eq!(get_byte(0xD12F), 0x2F);
}

#[test]
fn field_extractors_at_the_extremes() {
    assert_eq!(get_op(0x0000), 0);
    assert_eq!(get_op(0xFFFF), 0xF);
    assert_eq!(get_addr(0xFFFF), 0xFFF);
    assert_eq!(get_addr(0xF000), 0);
    assert_eq!(get_nibble(0xFFF0), 0);
    assert_eq!(get_4bit_h(0xF0FF), 0);
    assert_eq!(get_4bit_h(0x0F00), 0xF);
    assert_eq!(get_4bit_l(0xFF0F), 0);
    assert_eq!(get_4bit_l(0x00F0), 0xF);
    assert_eq!(get_byte(0xFF00), 0);
    assert_eq!(get_byte(0x00FF), 0xFF);
}

#[test]
fn decode_system_class() {
    assert_eq!(decode(0x00E0), Some(Instruction::ClearScreen));
    assert_eq!(decode(0x00EE), Some(Instruction::Return));
    assert_eq!(decode(0x0000), None);
    assert_eq!(decode(0x0123), None);
    assert_eq!(decode(0x01E0), None);
}

#[test]
fn decode_flow_classes() {
    assert_eq!(decode(0x1ABC), Some(Instruction::Jump { addr: 0xABC }));
    assert_eq!(decode(0x2FFF), Some(Instruction::Call { addr: 0xFFF }));
    assert_eq!(decode(0xB200), Some(Instruction::JumpOffset { addr: 0x200 }));
    assert_eq!(decode(0x3A42), Some(Instruction::SkipEqImm { x: 0xA, byte: 0x42 }));
    assert_eq!(decode(0x4B07), Some(Instruction::SkipNeImm { x: 0xB, byte: 0x07 }));
    assert_eq!(decode(0x5120), Some(Instruction::SkipEqReg { x: 1, y: 2 }));
    assert_eq!(decode(0x512F), Some(Instruction::SkipEqReg { x: 1, y: 2 }));
    assert_eq!(decode(0x9340), Some(Instruction::SkipNeReg { x: 3, y: 4 }));
}

#[test]
fn decode_register_classes() {
    assert_eq!(decode(0x6A05), Some(Instruction::LoadImm { x: 0xA, byte: 5 }));
    assert_eq!(decode(0x7CFF), Some(Instruction::AddImm { x: 0xC, byte: 0xFF }));
    assert_eq!(decode(0x8121), Some(Instruction::Or { x: 1, y: 2 }));
    assert_eq!(decode(0x8122), Some(Instruction::And { x: 1, y: 2 }));
    assert_eq!(decode(0x8123), Some(Instruction::Xor { x: 1, y: 2 }));
    assert_eq!(decode(0x8124), Some(Instruction::Add { x: 1, y: 2 }));
    assert_eq!(decode(0x8125), Some(Instruction::Sub { x: 1, y: 2 }));
    assert_eq!(decode(0x8126), Some(Instruction::ShiftRight { x: 1, y: 2 }));
    assert_eq!(decode(0x8127), Some(Instruction::SubReverse { x: 1, y: 2 }));
    assert_eq!(decode(0x812E), Some(Instruction::ShiftLeft { x: 1, y: 2 }));
    assert_eq!(decode(0xC30F), Some(Instruction::Random { x: 3, byte: 0x0F }));
}

#[test]
fn decode_register_class_rejects_other_subcodes() {
    for n in [0x0u16, 0x8, 0x9, 0xA, 0xB, 0xC, 0xD, 0xF] {
        assert_eq!(decode(0x8120 | n), None);
    }
}

#[test]
fn decode_memory_and_device_classes() {
    assert_eq!(decode(0xA123), Some(Instruction::SetIndex { addr: 0x123 }));
    assert_eq!(decode(0xD125), Some(Instruction::Draw { x: 1, y: 2, rows: 5 }));
    assert_eq!(decode(0xE19E), Some(Instruction::SkipKey { x: 1 }));
    assert_eq!(decode(0xE2A1), Some(Instruction::SkipNoKey { x: 2 }));
    assert_eq!(decode(0xF307), Some(Instruction::GetDelay { x: 3 }));
    assert_eq!(decode(0xF40A), Some(Instruction::WaitKey { x: 4 }));
    assert_eq!(decode(0xF515), Some(Instruction::SetDelay { x: 5 }));
    assert_eq!(decode(0xF618), Some(Instruction::SetSound { x: 6 }));
    assert_eq!(decode(0xF71E), Some(Instruction::AddIndex { x: 7 }));
    assert_eq!(decode(0xF829), Some(Instruction::FontChar { x: 8 }));
    assert_eq!(decode(0xF933), Some(Instruction::StoreBcd { x: 9 }));
    assert_eq!(decode(0xFA55), Some(Instruction::StoreRegs { x: 0xA }));
    assert_eq!(decode(0xFB65), Some(Instruction::LoadRegs { x: 0xB }));
}

#[test]
fn decode_rejects_unknown_key_and_misc_subcodes() {
    assert_eq!(decode(0xE000), None);
    assert_eq!(decode(0xE19F), None);
    assert_eq!(decode(0xF000), None);
    assert_eq!(decode(0xF1FF), None);
    assert_eq!(decode(0xF166), None);
}

#[test]
fn decode_is_total_and_keeps_operands_in_range() {
    let mut word: u32 = 0;
    let mut known: u32 = 0;
    while word <= 0xFFFF {
        if let Some(ins) = decode(word as u16) {
            known += 1;
            match ins {
                Instruction::Jump { addr }
                | Instruction::Call { addr }
                | Instruction::SetIndex { addr }
                | Instruction::JumpOffset { addr } => assert!(addr < 0x1000),
                Instruction::Draw { x, y, rows } => assert!(x < 16 && y < 16 && rows < 16),
                Instruction::LoadImm { x, byte } => {
                    assert!(x < 16);
                    assert_eq!(byte as u32, word & 0xFF);
                },
                _ => {},
            }
        }
        word += 1;
    }
    // two system words, twelve whole classes, eight of sixteen register
    // subcodes, two key and nine miscellaneous subcodes per register
    assert_eq!(known, 2 + 12 * 4096 + 8 * 256 + 2 * 16 + 9 * 16);
}
