use chip8::instruction::{decode, Instruction};

#[test]
fn decode_every_instruction() {
    let table = [
        (0x00E0, Instruction::ClearScreen),
        (0x00EE, Instruction::Return),
        (0x1ABC, Instruction::Jump { addr: 0xABC }),
        (0x2FFF, Instruction::Call { addr: 0xFFF }),
        (0x3A12, Instruction::SkipEqImm { x: 0xA, kk: 0x12 }),
        (0x4B34, Instruction::SkipNeImm { x: 0xB, kk: 0x34 }),
        (0x5CD0, Instruction::SkipEqReg { x: 0xC, y: 0xD }),
        (0x6EFF, Instruction::LoadImm { x: 0xE, kk: 0xFF }),
        (0x7F00, Instruction::AddImm { x: 0xF, kk: 0x00 }),
        (0x8120, Instruction::Move { x: 1, y: 2 }),
        (0x8121, Instruction::Or { x: 1, y: 2 }),
        (0x8122, Instruction::And { x: 1, y: 2 }),
        (0x8123, Instruction::Xor { x: 1, y: 2 }),
        (0x8124, Instruction::Add { x: 1, y: 2 }),
        (0x8125, Instruction::Sub { x: 1, y: 2 }),
        (0x8126, Instruction::ShiftRight { x: 1 }),
        (0x8127, Instruction::SubReverse { x: 1, y: 2 }),
        (0x812E, Instruction::ShiftLeft { x: 1 }),
        (0x9340, Instruction::SkipNeReg { x: 3, y: 4 }),
        (0xA000, Instruction::LoadIndex { addr: 0 }),
        (0xB123, Instruction::JumpOffset { addr: 0x123 }),
        (0xC5F0, Instruction::Random { x: 5, kk: 0xF0 }),
        (0xD67F, Instruction::Draw { x: 6, y: 7, n: 0xF }),
        (0xD670, Instruction::Draw { x: 6, y: 7, n: 0 }),
        (0xE89E, Instruction::SkipKeyPressed { x: 8 }),
        (0xE9A1, Instruction::SkipKeyNotPressed { x: 9 }),
        (0xFA07, Instruction::ReadDelay { x: 0xA }),
        (0xFB0A, Instruction::WaitKey { x: 0xB }),
        (0xFC15, Instruction::SetDelay { x: 0xC }),
        (0xFD18, Instruction::SetSound { x: 0xD }),
        (0xFE1E, Instruction::AddIndex { x: 0xE }),
        (0xFF29, Instruction::FontAddr { x: 0xF }),
        (0xF033, Instruction::StoreBcd { x: 0 }),
        (0xF155, Instruction::StoreRegs { x: 1 }),
        (0xF265, Instruction::LoadRegs { x: 2 }),
    ];
    for (word, instr) in table {
        assert_eq!(decode(word), Some(instr), "word {:#06X}", word);
    }
}

#[test]
fn decode_unknown_words() {
    for word in [
        0x0000u16, 0x00E1, 0x00ED, 0x00EF, 0x00FE, 0x01E0, 0x0FFF, 0x5001, 0x5AB1, 0x5ABF, 0x8008,
        0x8129, 0x812A, 0x812D, 0x812F, 0x9001, 0x9ABF, 0xE09F, 0xE0A0, 0xE19D, 0xE0AE, 0xE091,
        0xF000, 0xF008, 0xF009, 0xF00B, 0xF016, 0xF019, 0xF01F, 0xF028, 0xF034, 0xF054, 0xF066,
        0xF0FF,
    ] {
        assert_eq!(decode(word), None, "word {:#06X}", word);
    }
}

#[test]
fn decode_agrees_with_the_digit_patterns_on_every_word() {
    let mut known = 0u32;
    for word in 0..=0xFFFFu16 {
        let d0 = word >> 12;
        let d3 = word & 0xF;
        let low = word & 0xFF;
        let expected = match d0 {
            0x0 => word == 0x00E0 || word == 0x00EE,
            0x5 | 0x9 => d3 == 0,
            0x8 => d3 <= 7 || d3 == 0xE,
            0xE => low == 0x9E || low == 0xA1,
            0xF => matches!(low, 0x07 | 0x0A | 0x15 | 0x18 | 0x1E | 0x29 | 0x33 | 0x55 | 0x65),
            _ => true,
        };
        assert_eq!(decode(word).is_some(), expected, "word {:#06X}", word);
        if expected {
            known += 1;
        }
    }
    assert_eq!(known, 2 + 10 * 4096 + 2 * 256 + 9 * 256 + 2 * 16 + 9 * 16);
}

#[test]
fn decode_operands_are_in_range() {
    for word in 0..=0xFFFFu16 {
        match decode(word) {
            Some(Instruction::Draw { x, y, n }) => {
                assert_eq!((x, y, n as u16), (((word >> 8) & 0xF) as usize, ((word >> 4) & 0xF) as usize, word & 0xF));
            }
            Some(Instruction::Jump { addr })
            | Some(Instruction::Call { addr })
            | Some(Instruction::LoadIndex { addr })
            | Some(Instruction::JumpOffset { addr }) => assert_eq!(addr, word & 0xFFF),
            Some(Instruction::LoadImm { x, kk }) | Some(Instruction::AddImm { x, kk }) => {
                assert_eq!((x, kk as u16), (((word >> 8) & 0xF) as usize, word & 0xFF));
            }
            _ => {}
        }
    }
}
