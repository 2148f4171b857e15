use chip8_core::opcode::{address, decode, immediate, nibbles, Instruction};

#[test]
fn nibbles_are_split_highest_first() {
    assert_eq!(nibbles(0xABCD), (0xA, 0xB, 0xC, 0xD));
    assert_eq!(nibbles(0x0000), (0, 0, 0, 0));
    assert_eq!(nibbles(0xFFFF), (0xF, 0xF, 0xF, 0xF));
    assert_eq!(nibbles(0x1002), (1, 0, 0, 2));
}

#[test]
fn immediates_are_the_low_bits() {
    assert_eq!(immediate(0xABCD), 0xCD);
    assert_eq!(address(0xABCD), 0xBCD);
    assert_eq!(immediate(0xFF00), 0x00);
    assert_eq!(address(0xF000), 0x000);
}

#[test]
fn decode_control_flow() {
    assert_eq!(decode(0x0000), Some(Instruction::Nop));
    assert_eq!(decode(0x00E0), Some(Instruction::ClearScreen));
    assert_eq!(decode(0x00EE), Some(Instruction::Return));
    assert_eq!(decode(0x1ABC), Some(Instruction::Jump { addr: 0xABC }));
    assert_eq!(decode(0x2123), Some(Instruction::Call { addr: 0x123 }));
    assert_eq!(decode(0x3A42), Some(Instruction::SkipIfEqualsValue { x: 0xA, value: 0x42 }));
    assert_eq!(decode(0x4B43), Some(Instruction::SkipIfNotEqualsValue { x: 0xB, value: 0x43 }));
    assert_eq!(decode(0x5120), Some(Instruction::SkipIfEqualsRegister { x: 1, y: 2 }));
    assert_eq!(decode(0x9340), Some(Instruction::SkipRegisterPair { x: 3, y: 4 }));
}

#[test]
fn decode_register_operations() {
    assert_eq!(decode(0x6C7F), Some(Instruction::LoadValue { x: 0xC, value: 0x7F }));
    assert_eq!(decode(0x7D01), Some(Instruction::AddValue { x: 0xD, value: 0x01 }));
    assert_eq!(decode(0x8120), Some(Instruction::Copy { x: 1, y: 2 }));
    assert_eq!(decode(0x8121), Some(Instruction::Or { x: 1, y: 2 }));
    assert_eq!(decode(0x8122), Some(Instruction::And { x: 1, y: 2 }));
    assert_eq!(decode(0x8123), Some(Instruction::Xor { x: 1, y: 2 }));
    assert_eq!(decode(0x8AB4), Some(Instruction::Add { x: 0xA, y: 0xB }));
    assert_eq!(decode(0x8125), Some(Instruction::Sub { x: 1, y: 2 }));
    assert_eq!(decode(0x8126), Some(Instruction::ShiftRight { x: 1 }));
    assert_eq!(decode(0x8127), Some(Instruction::SubReversed { x: 1, y: 2 }));
    assert_eq!(decode(0x812E), Some(Instruction::ShiftLeft { x: 1 }));
}

#[test]
fn decode_memory_display_and_input() {
    assert_eq!(decode(0xA2F0), Some(Instruction::LoadIndex { addr: 0x2F0 }));
    assert_eq!(decode(0xC5F0), Some(Instruction::Random { x: 5, mask: 0xF0 }));
    assert_eq!(decode(0xD125), Some(Instruction::Draw { x: 1, y: 2, rows: 5 }));
    assert_eq!(decode(0xD120), Some(Instruction::Draw { x: 1, y: 2, rows: 0 }));
    assert_eq!(decode(0xE19E), Some(Instruction::SkipIfKeyPressed { x: 1 }));
    assert_eq!(decode(0xE2A1), Some(Instruction::SkipIfKeyNotPressed { x: 2 }));
    assert_eq!(decode(0xF307), Some(Instruction::ReadDelay { x: 3 }));
    assert_eq!(decode(0xF40A), Some(Instruction::WaitKey { x: 4 }));
    assert_eq!(decode(0xF515), Some(Instruction::SetDelay { x: 5 }));
    assert_eq!(decode(0xF618), Some(Instruction::SetSound { x: 6 }));
    assert_eq!(decode(0xF71E), Some(Instruction::AddIndex { x: 7 }));
    assert_eq!(decode(0xF829), Some(Instruction::FontAddress { x: 8 }));
    assert_eq!(decode(0xF933), Some(Instruction::StoreBcd { x: 9 }));
    assert_eq!(decode(0xFA55), Some(Instruction::StoreRegisters { x: 0xA }));
    assert_eq!(decode(0xFB65), Some(Instruction::LoadRegisters { x: 0xB }));
}

#[test]
fn decode_rejects_undefined_words() {
    for word in [
        0x0001u16, 0x00E1, 0x00EF, 0x0100, 0x0FFF, 0x5121, 0x512F, 0x8128, 0x812D, 0x812F, 0x9121,
        0xB123, 0xE19F, 0xE1A0, 0xE100, 0xF000, 0xF108, 0xF1FF, 0xF156, 0xF166,
    ] {
        assert_eq!(decode(word), None);
    }
}

#[test]
fn decode_covers_the_whole_word_space() {
    let mut defined = 0u32;
    for word in 0..=0xFFFFu16 {
        if let Some(instruction) = decode(word) {
            defined += 1;
            let (class, x, y, n) = nibbles(word);
            match instruction {
                Instruction::Jump { addr } | Instruction::Call { addr } | Instruction::LoadIndex { addr } => {
                    assert_eq!(addr, word & 0x0FFF)
                }
                Instruction::Draw { x: dx, y: dy, rows } => {
                    assert_eq!((class, dx as u16, dy as u16, rows), (0xD, x, y, n))
                }
                Instruction::Random { x: rx, mask } => {
                    assert_eq!((rx as u16, mask as u16), (x, word & 0xFF))
                }
                _ => {}
            }
        }
    }
    // Three fixed words, nine classes that take every operand, nine
    // register-pair forms of class 8, classes 5 and 9 with selector 0, and
    // eleven register forms of classes E and F.
    assert_eq!(defined, 3 + 9 * 4096 + 9 * 256 + 2 * 256 + 11 * 16);
}
