//! Splitting a 16-bit instruction word into its fields.

use vstd::prelude::*;

verus! {

/// The opcode class: the top four bits of the word.
pub fn get_op(op: u16) -> (r: u16)
    ensures
        r == op / 0x1000,
        r < 16,
{
    assert((op & 0xF000) >> 12 == op / 0x1000) by (bit_vector);
    (op & 0xF000) >> 12
}

/// The address field: the lowest twelve bits of the word.
pub fn get_addr(op: u16) -> (r: u16)
    ensures
        r == op % 0x1000,
{
    assert(op & 0x0FFF == op % 0x1000) by (bit_vector);
    op & 0x0FFF
}

/// The literal nibble: the lowest four bits of the word.
pub fn get_nibble(op: u16) -> (r: u16)
    ensures
        r == op % 16,
{
    assert(op & 0x000F == op % 16) by (bit_vector);
    op & 0x000F
}

/// The first register index: the low four bits of the high byte.
pub fn get_4bit_h(op: u16) -> (r: u16)
    ensures
        r == (op / 0x100) % 16,
{
    assert((op & 0x0F00) >> 8 == (op / 0x100) % 16) by (bit_vector);
    (op & 0x0F00) >> 8
}

/// The second register index: the high four bits of the low byte.
pub fn get_4bit_l(op: u16) -> (r: u16)
    ensures
        r == (op / 0x10) % 16,
{
    assert((op & 0x00F0) >> 4 == (op / 0x10) % 16) by (bit_vector);
    (op & 0x00F0) >> 4
}

/// The immediate byte: the lowest eight bits of the word.
pub fn get_byte(op: u16) -> (r: u16)
    ensures
        r == op % 0x100,
{
    assert(op & 0x00FF == op % 0x100) by (bit_vector);
    op & 0x00FF
}

/// One instruction with its operands. `x` and `y` are register indices,
/// `byte` an 8-bit literal, `addr` a 12-bit address.
#[derive(Clone, Copy, Debug, PartialEq, Eq, Structural)]
pub enum Instruction {
    /// Turn every display cell off.
    ClearScreen,
    /// Leave the current subroutine.
    Return,
    /// Continue at `addr`.
    Jump { addr: u16 },
    /// Enter the subroutine at `addr`.
    Call { addr: u16 },
    /// Skip the next instruction if Vx equals `byte`.
    SkipEqImm { x: u8, byte: u8 },
    /// Skip the next instruction if Vx differs from `byte`.
    SkipNeImm { x: u8, byte: u8 },
    /// Skip the next instruction if Vx equals Vy.
    SkipEqReg { x: u8, y: u8 },
    /// Vx = `byte`.
    LoadImm { x: u8, byte: u8 },
    /// Vx = Vx + `byte`, wrapping; VF is left alone.
    AddImm { x: u8, byte: u8 },
    /// Vx = Vx | Vy.
    Or { x: u8, y: u8 },
    /// Vx = Vx & Vy.
    And { x: u8, y: u8 },
    /// Vx = Vx ^ Vy.
    Xor { x: u8, y: u8 },
    /// Vx = Vx + Vy, wrapping; VF = 1 on carry, else 0.
    Add { x: u8, y: u8 },
    /// Vx = Vx - Vy, wrapping; VF = 1 if there was no borrow, else 0.
    Sub { x: u8, y: u8 },
    /// Vx = Vx / 2; VF = the bit shifted out.
    ShiftRight { x: u8, y: u8 },
    /// Vx = Vy - Vx, wrapping; VF = 1 if there was no borrow, else 0.
    SubReverse { x: u8, y: u8 },
    /// Vx = Vx * 2, wrapping; VF = the bit shifted out.
    ShiftLeft { x: u8, y: u8 },
    /// Skip the next instruction if Vx differs from Vy.
    SkipNeReg { x: u8, y: u8 },
    /// I = `addr`.
    SetIndex { addr: u16 },
    /// Continue at `addr` + V0.
    JumpOffset { addr: u16 },
    /// Vx = a random byte & `byte`.
    Random { x: u8, byte: u8 },
    /// Draw the `rows` bytes at I as a sprite at (Vx, Vy); VF = 1 if a lit
    /// cell was turned off, else 0.
    Draw { x: u8, y: u8, rows: u8 },
    /// Skip the next instruction if the key numbered Vx is down.
    SkipKey { x: u8 },
    /// Skip the next instruction if the key numbered Vx is not down.
    SkipNoKey { x: u8 },
    /// Vx = the delay timer.
    GetDelay { x: u8 },
    /// Stop until a key goes down, then put its number in Vx.
    WaitKey { x: u8 },
    /// The delay timer = Vx.
    SetDelay { x: u8 },
    /// The sound timer = Vx.
    SetSound { x: u8 },
    /// I = I + Vx, wrapping at 16 bits; VF is left alone.
    AddIndex { x: u8 },
    /// I = the address of the font sprite for the value in Vx.
    FontChar { x: u8 },
    /// Store the decimal digits of Vx at I, I + 1 and I + 2.
    StoreBcd { x: u8 },
    /// Store V0..=Vx at I onward.
    StoreRegs { x: u8 },
    /// Load V0..=Vx from I onward.
    LoadRegs { x: u8 },
}

impl Instruction {
    /// Every operand lies in the range of its field.
    pub open spec fn wf(self) -> bool {
        match self {
            Instruction::ClearScreen | Instruction::Return => true,
            Instruction::Jump { addr }
            | Instruction::Call { addr }
            | Instruction::SetIndex { addr }
            | Instruction::JumpOffset { addr } => addr < 0x1000,
            Instruction::SkipEqImm { x, byte }
            | Instruction::SkipNeImm { x, byte }
            | Instruction::LoadImm { x, byte }
            | Instruction::AddImm { x, byte }
            | Instruction::Random { x, byte } => x < 16,
            Instruction::SkipEqReg { x, y }
            | Instruction::Or { x, y }
            | Instruction::And { x, y }
            | Instruction::Xor { x, y }
            | Instruction::Add { x, y }
            | Instruction::Sub { x, y }
            | Instruction::ShiftRight { x, y }
            | Instruction::SubReverse { x, y }
            | Instruction::ShiftLeft { x, y }
            | Instruction::SkipNeReg { x, y } => x < 16 && y < 16,
            Instruction::Draw { x, y, rows } => x < 16 && y < 16 && rows < 16,
            Instruction::SkipKey { x }
            | Instruction::SkipNoKey { x }
            | Instruction::GetDelay { x }
            | Instruction::WaitKey { x }
            | Instruction::SetDelay { x }
            | Instruction::SetSound { x }
            | Instruction::AddIndex { x }
            | Instruction::FontChar { x }
            | Instruction::StoreBcd { x }
            | Instruction::StoreRegs { x }
            | Instruction::LoadRegs { x } => x < 16,
        }
    }
}

/// The instruction that a word stands for, if it stands for one. The class is
/// the top nibble; the register-register class is told apart by the lowest
/// nibble, the key and miscellaneous classes by the low byte, and the system
/// class by the whole word.
pub open spec fn decode_spec(word: u16) -> Option<Instruction> {
    let class = word / 0x1000;
    let addr = (word % 0x1000) as u16;
    let x = ((word / 0x100) % 16) as u8;
    let y = ((word / 0x10) % 16) as u8;
    let n = (word % 16) as u8;
    let byte = (word % 0x100) as u8;
    if class == 0x0 {
        if word == 0x00E0 {
            Some(Instruction::ClearScreen)
        } else if word == 0x00EE {
            Some(Instruction::Return)
        } else {
            None
        }
    } else if class == 0x1 {
        Some(Instruction::Jump { addr })
    } else if class == 0x2 {
        Some(Instruction::Call { addr })
    } else if class == 0x3 {
        Some(Instruction::SkipEqImm { x, byte })
    } else if class == 0x4 {
        Some(Instruction::SkipNeImm { x, byte })
    } else if class == 0x5 {
        Some(Instruction::SkipEqReg { x, y })
    } else if class == 0x6 {
        Some(Instruction::LoadImm { x, byte })
    } else if class == 0x7 {
        Some(Instruction::AddImm { x, byte })
    } else if class == 0x8 {
        if n == 0x1 {
            Some(Instruction::Or { x, y })
        } else if n == 0x2 {
            Some(Instruction::And { x, y })
        } else if n == 0x3 {
            Some(Instruction::Xor { x, y })
        } else if n == 0x4 {
            Some(Instruction::Add { x, y })
        } else if n == 0x5 {
            Some(Instruction::Sub { x, y })
        } else if n == 0x6 {
            Some(Instruction::ShiftRight { x, y })
        } else if n == 0x7 {
            Some(Instruction::SubReverse { x, y })
        } else if n == 0xE {
            Some(Instruction::ShiftLeft { x, y })
        } else {
            None
        }
    } else if class == 0x9 {
        Some(Instruction::SkipNeReg { x, y })
    } else if class == 0xA {
        Some(Instruction::SetIndex { addr })
    } else if class == 0xB {
        Some(Instruction::JumpOffset { addr })
    } else if class == 0xC {
        Some(Instruction::Random { x, byte })
    } else if class == 0xD {
        Some(Instruction::Draw { x, y, rows: n })
    } else if class == 0xE {
        if byte == 0x9E {
            Some(Instruction::SkipKey { x })
        } else if byte == 0xA1 {
            Some(Instruction::SkipNoKey { x })
        } else {
            None
        }
    } else {
        if byte == 0x07 {
            Some(Instruction::GetDelay { x })
        } else if byte == 0x0A {
            Some(Instruction::WaitKey { x })
        } else if byte == 0x15 {
            Some(Instruction::SetDelay { x })
        } else if byte == 0x18 {
            Some(Instruction::SetSound { x })
        } else if byte == 0x1E {
            Some(Instruction::AddIndex { x })
        } else if byte == 0x29 {
            Some(Instruction::FontChar { x })
        } else if byte == 0x33 {
            Some(Instruction::StoreBcd { x })
        } else if byte == 0x55 {
            Some(Instruction::StoreRegs { x })
        } else if byte == 0x65 {
            Some(Instruction::LoadRegs { x })
        } else {
            None
        }
    }
}

/// Decodes one instruction word. Every word that names an instruction gives
/// it with operands in range; every other word gives `None`.
pub fn decode(word: u16) -> (r: Option<Instruction>)
    ensures
        r == decode_spec(word),
        r matches Some(ins) ==> ins.wf(),
{
    let class = get_op(word);
    let addr = get_addr(word);
    let x = get_4bit_h(word) as u8;
    let y = get_4bit_l(word) as u8;
    let n = get_nibble(word) as u8;
    let byte = get_byte(word) as u8;
    match class {
        0x0 => {
            if word == 0x00E0 {
                Some(Instruction::ClearScreen)
            } else if word == 0x00EE {
                Some(Instruction::Return)
            } else {
                None
            }
        },
        0x1 => Some(Instruction::Jump { addr }),
        0x2 => Some(Instruction::Call { addr }),
        0x3 => Some(Instruction::SkipEqImm { x, byte }),
        0x4 => Some(Instruction::SkipNeImm { x, byte }),
        0x5 => Some(Instruction::SkipEqReg { x, y }),
        0x6 => Some(Instruction::LoadImm { x, byte }),
        0x7 => Some(Instruction::AddImm { x, byte }),
        0x8 => match n {
            0x1 => Some(Instruction::Or { x, y }),
            0x2 => Some(Instruction::And { x, y }),
            0x3 => Some(Instruction::Xor { x, y }),
            0x4 => Some(Instruction::Add { x, y }),
            0x5 => Some(Instruction::Sub { x, y }),
            0x6 => Some(Instruction::ShiftRight { x, y }),
            0x7 => Some(Instruction::SubReverse { x, y }),
            0xE => Some(Instruction::ShiftLeft { x, y }),
            _ => None,
        },
        0x9 => Some(Instruction::SkipNeReg { x, y }),
        0xA => Some(Instruction::SetIndex { addr }),
        0xB => Some(Instruction::JumpOffset { addr }),
        0xC => Some(Instruction::Random { x, byte }),
        0xD => Some(Instruction::Draw { x, y, rows: n }),
        0xE => match byte {
            0x9E => Some(Instruction::SkipKey { x }),
            0xA1 => Some(Instruction::SkipNoKey { x }),
            _ => None,
        },
        _ => match byte {
            0x07 => Some(Instruction::GetDelay { x }),
            0x0A => Some(Instruction::WaitKey { x }),
            0x15 => Some(Instruction::SetDelay { x }),
            0x18 => Some(Instruction::SetSound { x }),
            0x1E => Some(Instruction::AddIndex { x }),
            0x29 => Some(Instruction::FontChar { x }),
            0x33 => Some(Instruction::StoreBcd { x }),
            0x55 => Some(Instruction::StoreRegs { x }),
            0x65 => Some(Instruction::LoadRegs { x }),
            _ => None,
        },
    }
}

} // verus!
