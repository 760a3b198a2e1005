//! Instruction words and their decoding.
//!
//! A word is four hexadecimal digits. The first selects the family; the
//! others hold register indices (`x`, `y`), a 4-bit count (`n`), an 8-bit
//! immediate (`kk`), a 12-bit address (`addr`) or a selector within the
//! family.

use vstd::prelude::*;

verus! {

/// One decoded instruction with its operands.
#[derive(Clone, Copy, Debug, PartialEq, Eq, Structural)]
pub enum Instruction {
    /// `00E0`: clear the screen.
    ClearScreen,
    /// `00EE`: return from a subroutine.
    Return,
    /// `1nnn`: jump to `addr`.
    Jump { addr: u16 },
    /// `2nnn`: call the subroutine at `addr`.
    Call { addr: u16 },
    /// `3xkk`: skip the next instruction if `Vx == kk`.
    SkipEqImm { x: usize, kk: u8 },
    /// `4xkk`: skip the next instruction if `Vx != kk`.
    SkipNeImm { x: usize, kk: u8 },
    /// `5xy0`: skip the next instruction if `Vx == Vy`.
    SkipEqReg { x: usize, y: usize },
    /// `6xkk`: `Vx = kk`.
    LoadImm { x: usize, kk: u8 },
    /// `7xkk`: `Vx = Vx + kk`, wrapping, flag untouched.
    AddImm { x: usize, kk: u8 },
    /// `8xy0`: `Vx = Vy`.
    Move { x: usize, y: usize },
    /// `8xy1`: `Vx = Vx | Vy`.
    Or { x: usize, y: usize },
    /// `8xy2`: `Vx = Vx & Vy`.
    And { x: usize, y: usize },
    /// `8xy3`: `Vx = Vx ^ Vy`.
    Xor { x: usize, y: usize },
    /// `8xy4`: `Vx = Vx + Vy`, `VF` = carry.
    Add { x: usize, y: usize },
    /// `8xy5`: `Vx = Vx - Vy`, `VF` = no borrow.
    Sub { x: usize, y: usize },
    /// `8xy6`: `Vx = Vx >> 1`, `VF` = the bit shifted out.
    ShiftRight { x: usize },
    /// `8xy7`: `Vx = Vy - Vx`, `VF` = no borrow.
    SubReverse { x: usize, y: usize },
    /// `8xyE`: `Vx = Vx << 1`, `VF` = the bit shifted out.
    ShiftLeft { x: usize },
    /// `9xy0`: skip the next instruction if `Vx != Vy`.
    SkipNeReg { x: usize, y: usize },
    /// `Annn`: `I = addr`.
    LoadIndex { addr: u16 },
    /// `Bnnn`: jump to `V0 + addr`.
    JumpOffset { addr: u16 },
    /// `Cxkk`: `Vx` = random byte `& kk`.
    Random { x: usize, kk: u8 },
    /// `Dxyn`: draw the `n`-row sprite at `I` at (`Vx`, `Vy`), `VF` = collision.
    Draw { x: usize, y: usize, n: u8 },
    /// `Ex9E`: skip the next instruction if key `Vx` is down.
    SkipKeyPressed { x: usize },
    /// `ExA1`: skip the next instruction if key `Vx` is up.
    SkipKeyNotPressed { x: usize },
    /// `Fx07`: `Vx` = delay timer.
    ReadDelay { x: usize },
    /// `Fx0A`: wait for a key and put its index in `Vx`.
    WaitKey { x: usize },
    /// `Fx15`: delay timer = `Vx`.
    SetDelay { x: usize },
    /// `Fx18`: sound timer = `Vx`.
    SetSound { x: usize },
    /// `Fx1E`: `I = I + Vx`, wrapping at 16 bits.
    AddIndex { x: usize },
    /// `Fx29`: `I` = address of the font glyph for `Vx`.
    FontAddr { x: usize },
    /// `Fx33`: store the decimal digits of `Vx` at `I`, `I + 1`, `I + 2`.
    StoreBcd { x: usize },
    /// `Fx55`: store `V0..=Vx` at `I..=I + x`.
    StoreRegs { x: usize },
    /// `Fx65`: load `V0..=Vx` from `I..=I + x`.
    LoadRegs { x: usize },
}

impl Instruction {
    /// The first register operand, or 0 where the instruction has none.
    pub open spec fn reg_x(self) -> int {
        match self {
            Instruction::SkipEqImm { x, .. } => x as int,
            Instruction::SkipNeImm { x, .. } => x as int,
            Instruction::SkipEqReg { x, .. } => x as int,
            Instruction::LoadImm { x, .. } => x as int,
            Instruction::AddImm { x, .. } => x as int,
            Instruction::Move { x, .. } => x as int,
            Instruction::Or { x, .. } => x as int,
            Instruction::And { x, .. } => x as int,
            Instruction::Xor { x, .. } => x as int,
            Instruction::Add { x, .. } => x as int,
            Instruction::Sub { x, .. } => x as int,
            Instruction::ShiftRight { x } => x as int,
            Instruction::SubReverse { x, .. } => x as int,
            Instruction::ShiftLeft { x } => x as int,
            Instruction::SkipNeReg { x, .. } => x as int,
            Instruction::Random { x, .. } => x as int,
            Instruction::Draw { x, .. } => x as int,
            Instruction::SkipKeyPressed { x } => x as int,
            Instruction::SkipKeyNotPressed { x } => x as int,
            Instruction::ReadDelay { x } => x as int,
            Instruction::WaitKey { x } => x as int,
            Instruction::SetDelay { x } => x as int,
            Instruction::SetSound { x } => x as int,
            Instruction::AddIndex { x } => x as int,
            Instruction::FontAddr { x } => x as int,
            Instruction::StoreBcd { x } => x as int,
            Instruction::StoreRegs { x } => x as int,
            Instruction::LoadRegs { x } => x as int,
            _ => 0,
        }
    }

    /// The second register operand, or 0 where the instruction has none.
    pub open spec fn reg_y(self) -> int {
        match self {
            Instruction::SkipEqReg { y, .. } => y as int,
            Instruction::Move { y, .. } => y as int,
            Instruction::Or { y, .. } => y as int,
            Instruction::And { y, .. } => y as int,
            Instruction::Xor { y, .. } => y as int,
            Instruction::Add { y, .. } => y as int,
            Instruction::Sub { y, .. } => y as int,
            Instruction::SubReverse { y, .. } => y as int,
            Instruction::SkipNeReg { y, .. } => y as int,
            Instruction::Draw { y, .. } => y as int,
            _ => 0,
        }
    }

    /// The address operand, or 0 where the instruction has none.
    pub open spec fn address(self) -> int {
        match self {
            Instruction::Jump { addr } => addr as int,
            Instruction::Call { addr } => addr as int,
            Instruction::LoadIndex { addr } => addr as int,
            Instruction::JumpOffset { addr } => addr as int,
            _ => 0,
        }
    }

    /// Whether the instruction steers the program counter by a jump, a
    /// call, a return or a skip on registers.
    pub open spec fn is_control(self) -> bool {
        ||| self is Return
        ||| self is Jump
        ||| self is Call
        ||| self is SkipEqImm
        ||| self is SkipNeImm
        ||| self is SkipEqReg
        ||| self is SkipNeReg
        ||| self is JumpOffset
    }

    /// Whether the instruction computes on the general registers alone.
    pub open spec fn is_arithmetic(self) -> bool {
        ||| self is LoadImm
        ||| self is AddImm
        ||| self is Move
        ||| self is Or
        ||| self is And
        ||| self is Xor
        ||| self is Add
        ||| self is Sub
        ||| self is ShiftRight
        ||| self is SubReverse
        ||| self is ShiftLeft
        ||| self is Random
    }

    /// Well-formedness: register operands name one of the sixteen registers,
    /// an address has twelve bits and a sprite height four.
    pub open spec fn wf(self) -> bool {
        &&& self.reg_x() < 16
        &&& self.reg_y() < 16
        &&& self.address() < 0x1000
        &&& (self matches Instruction::Draw { n, .. } ==> n < 16)
    }
}

/// The four hexadecimal digits of a word, most significant first.
pub open spec fn hex_digits(op: u16) -> (int, int, int, int) {
    (op as int / 0x1000, (op as int / 0x100) % 0x10, (op as int / 0x10) % 0x10, op as int % 0x10)
}

/// The instruction a word encodes, or `None` where it encodes none.
pub open spec fn spec_decode(op: u16) -> Option<Instruction> {
    let (family, d1, d2, d3) = hex_digits(op);
    let x = d1 as usize;
    let y = d2 as usize;
    let n = d3 as u8;
    let kk = (op as int % 0x100) as u8;
    let addr = (op as int % 0x1000) as u16;
    if family == 0x0 {
        if op == 0x00E0 {
            Some(Instruction::ClearScreen)
        } else if op == 0x00EE {
            Some(Instruction::Return)
        } else {
            None
        }
    } else if family == 0x1 {
        Some(Instruction::Jump { addr })
    } else if family == 0x2 {
        Some(Instruction::Call { addr })
    } else if family == 0x3 {
        Some(Instruction::SkipEqImm { x, kk })
    } else if family == 0x4 {
        Some(Instruction::SkipNeImm { x, kk })
    } else if family == 0x5 {
        if d3 == 0 {
            Some(Instruction::SkipEqReg { x, y })
        } else {
            None
        }
    } else if family == 0x6 {
        Some(Instruction::LoadImm { x, kk })
    } else if family == 0x7 {
        Some(Instruction::AddImm { x, kk })
    } else if family == 0x8 {
        if d3 == 0x0 {
            Some(Instruction::Move { x, y })
        } else if d3 == 0x1 {
            Some(Instruction::Or { x, y })
        } else if d3 == 0x2 {
            Some(Instruction::And { x, y })
        } else if d3 == 0x3 {
            Some(Instruction::Xor { x, y })
        } else if d3 == 0x4 {
            Some(Instruction::Add { x, y })
        } else if d3 == 0x5 {
            Some(Instruction::Sub { x, y })
        } else if d3 == 0x6 {
            Some(Instruction::ShiftRight { x })
        } else if d3 == 0x7 {
            Some(Instruction::SubReverse { x, y })
        } else if d3 == 0xE {
            Some(Instruction::ShiftLeft { x })
        } else {
            None
        }
    } else if family == 0x9 {
        if d3 == 0 {
            Some(Instruction::SkipNeReg { x, y })
        } else {
            None
        }
    } else if family == 0xA {
        Some(Instruction::LoadIndex { addr })
    } else if family == 0xB {
        Some(Instruction::JumpOffset { addr })
    } else if family == 0xC {
        Some(Instruction::Random { x, kk })
    } else if family == 0xD {
        Some(Instruction::Draw { x, y, n })
    } else if family == 0xE {
        if kk == 0x9E {
            Some(Instruction::SkipKeyPressed { x })
        } else if kk == 0xA1 {
            Some(Instruction::SkipKeyNotPressed { x })
        } else {
            None
        }
    } else {
        if kk == 0x07 {
            Some(Instruction::ReadDelay { x })
        } else if kk == 0x0A {
            Some(Instruction::WaitKey { x })
        } else if kk == 0x15 {
            Some(Instruction::SetDelay { x })
        } else if kk == 0x18 {
            Some(Instruction::SetSound { x })
        } else if kk == 0x1E {
            Some(Instruction::AddIndex { x })
        } else if kk == 0x29 {
            Some(Instruction::FontAddr { x })
        } else if kk == 0x33 {
            Some(Instruction::StoreBcd { x })
        } else if kk == 0x55 {
            Some(Instruction::StoreRegs { x })
        } else if kk == 0x65 {
            Some(Instruction::LoadRegs { x })
        } else {
            None
        }
    }
}

/// Masking and shifting a word picks out its hexadecimal digits.
proof fn lemma_mask_digits(op: u16)
    ensures
        (op & 0xF000) >> 12 == op / 0x1000,
        (op & 0x0F00) >> 8 == (op / 0x100) % 0x10,
        (op & 0x00F0) >> 4 == (op / 0x10) % 0x10,
        op & 0x000F == op % 0x10,
        op & 0xFF == op % 0x100,
        op & 0xFFF == op % 0x1000,
{
    assert((op & 0xF000) >> 12 == op / 0x1000) by (bit_vector);
    assert((op & 0x0F00) >> 8 == (op / 0x100) % 0x10) by (bit_vector);
    assert((op & 0x00F0) >> 4 == (op / 0x10) % 0x10) by (bit_vector);
    assert(op & 0x000F == op % 0x10) by (bit_vector);
    assert(op & 0xFF == op % 0x100) by (bit_vector);
    assert(op & 0xFFF == op % 0x1000) by (bit_vector);
}

/// Decodes one instruction word.
pub fn decode(op: u16) -> (r: Option<Instruction>)
    ensures
        r == spec_decode(op),
        r matches Some(instr) ==> instr.wf(),
{
    let digit0: u16 = (op & 0xF000) >> 12;
    let digit1: u16 = (op & 0x0F00) >> 8;
    let digit2: u16 = (op & 0x00F0) >> 4;
    let digit3: u16 = op & 0x000F;
    let low: u16 = op & 0xFF;
    let addr: u16 = op & 0xFFF;
    proof {
        lemma_mask_digits(op);
    }
    let x: usize = digit1 as usize;
    let y: usize = digit2 as usize;
    let kk: u8 = low as u8;
    match (digit0, digit1, digit2, digit3) {
        (0, 0, 0xE, 0) => Some(Instruction::ClearScreen),
        (0, 0, 0xE, 0xE) => Some(Instruction::Return),
        (1, _, _, _) => Some(Instruction::Jump { addr }),
        (2, _, _, _) => Some(Instruction::Call { addr }),
        (3, _, _, _) => Some(Instruction::SkipEqImm { x, kk }),
        (4, _, _, _) => Some(Instruction::SkipNeImm { x, kk }),
        (5, _, _, 0) => Some(Instruction::SkipEqReg { x, y }),
        (6, _, _, _) => Some(Instruction::LoadImm { x, kk }),
        (7, _, _, _) => Some(Instruction::AddImm { x, kk }),
        (8, _, _, 0) => Some(Instruction::Move { x, y }),
        (8, _, _, 1) => Some(Instruction::Or { x, y }),
        (8, _, _, 2) => Some(Instruction::And { x, y }),
        (8, _, _, 3) => Some(Instruction::Xor { x, y }),
        (8, _, _, 4) => Some(Instruction::Add { x, y }),
        (8, _, _, 5) => Some(Instruction::Sub { x, y }),
        (8, _, _, 6) => Some(Instruction::ShiftRight { x }),
        (8, _, _, 7) => Some(Instruction::SubReverse { x, y }),
        (8, _, _, 0xE) => Some(Instruction::ShiftLeft { x }),
        (9, _, _, 0) => Some(Instruction::SkipNeReg { x, y }),
        (0xA, _, _, _) => Some(Instruction::LoadIndex { addr }),
        (0xB, _, _, _) => Some(Instruction::JumpOffset { addr }),
        (0xC, _, _, _) => Some(Instruction::Random { x, kk }),
        (0xD, _, _, _) => Some(Instruction::Draw { x, y, n: digit3 as u8 }),
        (0xE, _, 9, 0xE) => Some(Instruction::SkipKeyPressed { x }),
        (0xE, _, 0xA, 1) => Some(Instruction::SkipKeyNotPressed { x }),
        (0xF, _, 0, 7) => Some(Instruction::ReadDelay { x }),
        (0xF, _, 0, 0xA) => Some(Instruction::WaitKey { x }),
        (0xF, _, 1, 5) => Some(Instruction::SetDelay { x }),
        (0xF, _, 1, 8) => Some(Instruction::SetSound { x }),
        (0xF, _, 1, 0xE) => Some(Instruction::AddIndex { x }),
        (0xF, _, 2, 9) => Some(Instruction::FontAddr { x }),
        (0xF, _, 3, 3) => Some(Instruction::StoreBcd { x }),
        (0xF, _, 5, 5) => Some(Instruction::StoreRegs { x }),
        (0xF, _, 6, 5) => Some(Instruction::LoadRegs { x }),
        (_, _, _, _) => None,
    }
}

} // verus!
