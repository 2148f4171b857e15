//! Instruction words and their decoding.
//!
//! An instruction is a 16-bit word read as four nibbles. The highest selects
//! the class; depending on the class the rest holds two register numbers and a
//! selector, a register number and an 8-bit immediate, or a 12-bit address.

use vstd::prelude::*;

verus! {

/// A decoded instruction. Register fields hold a register number below 16.
#[derive(Clone, Copy, Debug, PartialEq, Eq, Structural)]
pub enum Instruction {
    /// `0000`: do nothing.
    Nop,
    /// `00E0`: switch every pixel off.
    ClearScreen,
    /// `00EE`: return from a subroutine.
    Return,
    /// `1NNN`: continue at `addr`.
    Jump { addr: u16 },
    /// `2NNN`: call the subroutine at `addr`.
    Call { addr: u16 },
    /// `3XNN`: skip the next instruction if `VX == value`.
    SkipIfEqualsValue { x: usize, value: u8 },
    /// `4XNN`: skip the next instruction if `VX != value`.
    SkipIfNotEqualsValue { x: usize, value: u8 },
    /// `5XY0`: skip the next instruction if `VX == VY`.
    SkipIfEqualsRegister { x: usize, y: usize },
    /// `6XNN`: `VX = value`.
    LoadValue { x: usize, value: u8 },
    /// `7XNN`: `VX += value`, wrapping, flag untouched.
    AddValue { x: usize, value: u8 },
    /// `8XY0`: `VX = VY`.
    Copy { x: usize, y: usize },
    /// `8XY1`: `VX |= VY`.
    Or { x: usize, y: usize },
    /// `8XY2`: `VX &= VY`.
    And { x: usize, y: usize },
    /// `8XY3`: `VX ^= VY`.
    Xor { x: usize, y: usize },
    /// `8XY4`: `VX += VY`, wrapping, flag set on carry.
    Add { x: usize, y: usize },
    /// `8XY5`: `VX -= VY`, wrapping, flag set when nothing was borrowed.
    Sub { x: usize, y: usize },
    /// `8XY6`: `VX >>= 1`, flag set to the bit shifted out.
    ShiftRight { x: usize },
    /// `8XY7`: `VX = VY - VX`, wrapping, flag set when nothing was borrowed.
    SubReversed { x: usize, y: usize },
    /// `8XYE`: `VX <<= 1`, flag set to the bit shifted out.
    ShiftLeft { x: usize },
    /// `9XY0`: the second register-to-register skip. Like `5XY0` it skips the
    /// next instruction if `VX == VY`.
    SkipRegisterPair { x: usize, y: usize },
    /// `ANNN`: `I = addr`.
    LoadIndex { addr: u16 },
    /// `CXNN`: `VX` = a random byte masked by `mask`.
    Random { x: usize, mask: u8 },
    /// `DXYN`: draw the sprite of `rows` rows at `I` to the pixel `(VX, VY)`.
    Draw { x: usize, y: usize, rows: u16 },
    /// `EX9E`: skip the next instruction if the key numbered `VX` is down.
    SkipIfKeyPressed { x: usize },
    /// `EXA1`: skip the next instruction if the key numbered `VX` is up.
    SkipIfKeyNotPressed { x: usize },
    /// `FX07`: `VX` = delay timer.
    ReadDelay { x: usize },
    /// `FX0A`: wait until a key is down, then put its number in `VX`.
    WaitKey { x: usize },
    /// `FX15`: delay timer = `VX`.
    SetDelay { x: usize },
    /// `FX18`: sound timer = `VX`.
    SetSound { x: usize },
    /// `FX1E`: `I += VX`, wrapping.
    AddIndex { x: usize },
    /// `FX29`: `I` = address of the glyph for the low nibble of `VX`.
    FontAddress { x: usize },
    /// `FX33`: store the three decimal digits of `VX` at `I`, `I+1`, `I+2`.
    StoreBcd { x: usize },
    /// `FX55`: store `V0..=VX` at `I..`.
    StoreRegisters { x: usize },
    /// `FX65`: load `V0..=VX` from `I..`.
    LoadRegisters { x: usize },
}

impl Instruction {
    /// Whether the fields are in the range that an instruction word can
    /// encode: register numbers below 16, addresses below 4096 and at most 15
    /// sprite rows.
    pub open spec fn is_valid(self) -> bool {
        match self {
            Instruction::Nop | Instruction::ClearScreen | Instruction::Return => true,
            Instruction::Jump { addr } | Instruction::Call { addr } | Instruction::LoadIndex {
                addr,
            } => addr < 4096,
            Instruction::SkipIfEqualsValue { x, .. }
            | Instruction::SkipIfNotEqualsValue { x, .. }
            | Instruction::LoadValue { x, .. }
            | Instruction::AddValue { x, .. }
            | Instruction::Random { x, .. }
            | Instruction::ShiftRight { x }
            | Instruction::ShiftLeft { x }
            | Instruction::SkipIfKeyPressed { x }
            | Instruction::SkipIfKeyNotPressed { x }
            | Instruction::ReadDelay { x }
            | Instruction::WaitKey { x }
            | Instruction::SetDelay { x }
            | Instruction::SetSound { x }
            | Instruction::AddIndex { x }
            | Instruction::FontAddress { x }
            | Instruction::StoreBcd { x }
            | Instruction::StoreRegisters { x }
            | Instruction::LoadRegisters { x } => x < 16,
            Instruction::SkipIfEqualsRegister { x, y }
            | Instruction::Copy { x, y }
            | Instruction::Or { x, y }
            | Instruction::And { x, y }
            | Instruction::Xor { x, y }
            | Instruction::Add { x, y }
            | Instruction::Sub { x, y }
            | Instruction::SubReversed { x, y }
            | Instruction::SkipRegisterPair { x, y } => x < 16 && y < 16,
            Instruction::Draw { x, y, rows } => x < 16 && y < 16 && rows <= 15,
        }
    }

    /// Whether the instruction writes a flag to `VF`.
    pub open spec fn defines_flag(self) -> bool {
        match self {
            Instruction::Add { .. }
            | Instruction::Sub { .. }
            | Instruction::SubReversed { .. }
            | Instruction::ShiftRight { .. }
            | Instruction::ShiftLeft { .. }
            | Instruction::Draw { .. } => true,
            _ => false,
        }
    }
}

/// The highest nibble of an instruction word: its class.
pub open spec fn op_class(op: u16) -> int {
    op as int / 4096
}

/// The second nibble: the register number `X`.
pub open spec fn op_x(op: u16) -> int {
    (op as int / 256) % 16
}

/// The third nibble: the register number `Y`.
pub open spec fn op_y(op: u16) -> int {
    (op as int / 16) % 16
}

/// The lowest nibble: a selector within the class, or a sprite's row count.
pub open spec fn op_n(op: u16) -> int {
    op as int % 16
}

/// The low byte: an 8-bit immediate.
pub open spec fn op_nn(op: u16) -> int {
    op as int % 256
}

/// The low twelve bits: an address.
pub open spec fn op_nnn(op: u16) -> int {
    op as int % 4096
}

/// The instruction that a word encodes, or `None` where the instruction set
/// gives the word no meaning.
pub open spec fn instruction_of(op: u16) -> Option<Instruction> {
    let class = op_class(op);
    let x = op_x(op) as usize;
    let y = op_y(op) as usize;
    let n = op_n(op);
    let nn = op_nn(op);
    let value = op_nn(op) as u8;
    let addr = op_nnn(op) as u16;
    if op == 0x0000 {
        Some(Instruction::Nop)
    } else if op == 0x00E0 {
        Some(Instruction::ClearScreen)
    } else if op == 0x00EE {
        Some(Instruction::Return)
    } else if class == 0x1 {
        Some(Instruction::Jump { addr })
    } else if class == 0x2 {
        Some(Instruction::Call { addr })
    } else if class == 0x3 {
        Some(Instruction::SkipIfEqualsValue { x, value })
    } else if class == 0x4 {
        Some(Instruction::SkipIfNotEqualsValue { x, value })
    } else if class == 0x5 && n == 0x0 {
        Some(Instruction::SkipIfEqualsRegister { x, y })
    } else if class == 0x6 {
        Some(Instruction::LoadValue { x, value })
    } else if class == 0x7 {
        Some(Instruction::AddValue { x, value })
    } else if class == 0x8 && n == 0x0 {
        Some(Instruction::Copy { x, y })
    } else if class == 0x8 && n == 0x1 {
        Some(Instruction::Or { x, y })
    } else if class == 0x8 && n == 0x2 {
        Some(Instruction::And { x, y })
    } else if class == 0x8 && n == 0x3 {
        Some(Instruction::Xor { x, y })
    } else if class == 0x8 && n == 0x4 {
        Some(Instruction::Add { x, y })
    } else if class == 0x8 && n == 0x5 {
        Some(Instruction::Sub { x, y })
    } else if class == 0x8 && n == 0x6 {
        Some(Instruction::ShiftRight { x })
    } else if class == 0x8 && n == 0x7 {
        Some(Instruction::SubReversed { x, y })
    } else if class == 0x8 && n == 0xE {
        Some(Instruction::ShiftLeft { x })
    } else if class == 0x9 && n == 0x0 {
        Some(Instruction::SkipRegisterPair { x, y })
    } else if class == 0xA {
        Some(Instruction::LoadIndex { addr })
    } else if class == 0xC {
        Some(Instruction::Random { x, mask: value })
    } else if class == 0xD {
        Some(Instruction::Draw { x, y, rows: n as u16 })
    } else if class == 0xE && nn == 0x9E {
        Some(Instruction::SkipIfKeyPressed { x })
    } else if class == 0xE && nn == 0xA1 {
        Some(Instruction::SkipIfKeyNotPressed { x })
    } else if class == 0xF && nn == 0x07 {
        Some(Instruction::ReadDelay { x })
    } else if class == 0xF && nn == 0x0A {
        Some(Instruction::WaitKey { x })
    } else if class == 0xF && nn == 0x15 {
        Some(Instruction::SetDelay { x })
    } else if class == 0xF && nn == 0x18 {
        Some(Instruction::SetSound { x })
    } else if class == 0xF && nn == 0x1E {
        Some(Instruction::AddIndex { x })
    } else if class == 0xF && nn == 0x29 {
        Some(Instruction::FontAddress { x })
    } else if class == 0xF && nn == 0x33 {
        Some(Instruction::StoreBcd { x })
    } else if class == 0xF && nn == 0x55 {
        Some(Instruction::StoreRegisters { x })
    } else if class == 0xF && nn == 0x65 {
        Some(Instruction::LoadRegisters { x })
    } else {
        None
    }
}

/// Whether a word encodes the one instruction whose effect is not determined
/// by the machine state.
pub open spec fn is_random_op(op: u16) -> bool {
    op_class(op) == 0xC
}

/// Splits an instruction word into its four nibbles, highest first.
pub fn nibbles(op: u16) -> (digits: (u16, u16, u16, u16))
    ensures
        digits.0 == op_class(op),
        digits.1 == op_x(op),
        digits.2 == op_y(op),
        digits.3 == op_n(op),
{
    let digit1: u16 = (op & 0xF000) >> 12;
    let digit2: u16 = (op & 0x0F00) >> 8;
    let digit3: u16 = (op & 0x00F0) >> 4;
    let digit4: u16 = op & 0x000F;
    assert((op & 0xF000) >> 12 == op / 4096) by (bit_vector);
    assert((op & 0x0F00) >> 8 == (op / 256) % 16) by (bit_vector);
    assert((op & 0x00F0) >> 4 == (op / 16) % 16) by (bit_vector);
    assert(op & 0x000F == op % 16) by (bit_vector);
    (digit1, digit2, digit3, digit4)
}

/// The 8-bit immediate of an instruction word.
pub fn immediate(op: u16) -> (value: u8)
    ensures
        value == op_nn(op),
{
    assert(op & 0xFF == op % 256) by (bit_vector);
    (op & 0xFF) as u8
}

/// The 12-bit address of an instruction word.
pub fn address(op: u16) -> (addr: u16)
    ensures
        addr == op_nnn(op),
{
    assert(op & 0xFFF == op % 4096) by (bit_vector);
    op & 0xFFF
}

/// Decodes an instruction word.
///
/// Returns `None` exactly for the words that the instruction set leaves
/// undefined, so that a caller can report them.
pub fn decode(op: u16) -> (instr: Option<Instruction>)
    ensures
        instr == instruction_of(op),
{
    let (digit1, digit2, digit3, digit4) = nibbles(op);
    let x: usize = digit2 as usize;
    let y: usize = digit3 as usize;
    let value: u8 = immediate(op);
    let addr: u16 = address(op);
    match (digit1, digit2, digit3, digit4) {
        (0, 0, 0, 0) => Some(Instruction::Nop),
        (0, 0, 0xE, 0) => Some(Instruction::ClearScreen),
        (0, 0, 0xE, 0xE) => Some(Instruction::Return),
        (1, _, _, _) => Some(Instruction::Jump { addr }),
        (2, _, _, _) => Some(Instruction::Call { addr }),
        (3, _, _, _) => Some(Instruction::SkipIfEqualsValue { x, value }),
        (4, _, _, _) => Some(Instruction::SkipIfNotEqualsValue { x, value }),
        (5, _, _, 0) => Some(Instruction::SkipIfEqualsRegister { x, y }),
        (6, _, _, _) => Some(Instruction::LoadValue { x, value }),
        (7, _, _, _) => Some(Instruction::AddValue { x, value }),
        (8, _, _, 0) => Some(Instruction::Copy { x, y }),
        (8, _, _, 1) => Some(Instruction::Or { x, y }),
        (8, _, _, 2) => Some(Instruction::And { x, y }),
        (8, _, _, 3) => Some(Instruction::Xor { x, y }),
        (8, _, _, 4) => Some(Instruction::Add { x, y }),
        (8, _, _, 5) => Some(Instruction::Sub { x, y }),
        (8, _, _, 6) => Some(Instruction::ShiftRight { x }),
        (8, _, _, 7) => Some(Instruction::SubReversed { x, y }),
        (8, _, _, 0xE) => Some(Instruction::ShiftLeft { x }),
        (9, _, _, 0) => Some(Instruction::SkipRegisterPair { x, y }),
        (0xA, _, _, _) => Some(Instruction::LoadIndex { addr }),
        (0xC, _, _, _) => Some(Instruction::Random { x, mask: value }),
        (0xD, _, _, _) => Some(Instruction::Draw { x, y, rows: digit4 }),
        (0xE, _, 9, 0xE) => Some(Instruction::SkipIfKeyPressed { x }),
        (0xE, _, 0xA, 1) => Some(Instruction::SkipIfKeyNotPressed { x }),
        (0xF, _, 0, 7) => Some(Instruction::ReadDelay { x }),
        (0xF, _, 0, 0xA) => Some(Instruction::WaitKey { x }),
        (0xF, _, 1, 5) => Some(Instruction::SetDelay { x }),
        (0xF, _, 1, 8) => Some(Instruction::SetSound { x }),
        (0xF, _, 1, 0xE) => Some(Instruction::AddIndex { x }),
        (0xF, _, 2, 9) => Some(Instruction::FontAddress { x }),
        (0xF, _, 3, 3) => Some(Instruction::StoreBcd { x }),
        (0xF, _, 5, 5) => Some(Instruction::StoreRegisters { x }),
        (0xF, _, 6, 5) => Some(Instruction::LoadRegisters { x }),
        (_, _, _, _) => None,
    }
}

/// Every decoded instruction is valid: its fields are in range.
pub proof fn lemma_decoded_is_valid(op: u16)
    ensures
        instruction_of(op) matches Some(instr) ==> instr.is_valid(),
{
}

/// An instruction word is made of its four nibbles, the immediate of the two
/// low ones and the address of the three low ones.
pub proof fn lemma_instruction_fields(op: u16)
    ensures
        0 <= op_class(op) < 16,
        0 <= op_x(op) < 16,
        0 <= op_y(op) < 16,
        0 <= op_n(op) < 16,
        0 <= op_nn(op) < 256,
        0 <= op_nnn(op) < 4096,
        op as int == op_class(op) * 4096 + op_x(op) * 256 + op_y(op) * 16 + op_n(op),
        op_nn(op) == op_y(op) * 16 + op_n(op),
        op_nnn(op) == op_x(op) * 256 + op_nn(op),
{
    assert(op % 256 == ((op / 16) % 16) * 16 + op % 16) by (bit_vector);
    assert(op % 4096 == ((op / 256) % 16) * 256 + op % 256) by (bit_vector);
    assert(op == (op / 4096) * 4096 + op % 4096) by (bit_vector);
}

} // verus!
