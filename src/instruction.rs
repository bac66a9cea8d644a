//! Decoding of 16-bit instruction words.
//!
//! A word `0xKXYN` splits into four nibbles: the family `K`, a register `X`,
//! a register `Y` (or part of a sub-operation), and a low nibble `N`. The low
//! byte `NN` is an 8-bit immediate and the low twelve bits `NNN` an address.

use vstd::prelude::*;

verus! {

/// One decoded instruction. Register operands `x` and `y` name `V0`..`VF`.
#[derive(Clone, Copy, Debug, PartialEq, Eq, Structural)]
pub enum Instruction {
    /// `00E0`: clear the framebuffer.
    ClearScreen,
    /// `00EE`: return from a subroutine.
    Return,
    /// `0NNN` (other than the two above): machine-code call, no effect.
    MachineCall { addr: u16 },
    /// `1NNN`: jump to `NNN`.
    Jump { addr: u16 },
    /// `2NNN`: call the subroutine at `NNN`.
    Call { addr: u16 },
    /// `3XNN`: skip the next instruction if `VX == NN`.
    SkipEqImm { x: u8, value: u8 },
    /// `4XNN`: skip the next instruction if `VX != NN`.
    SkipNeImm { x: u8, value: u8 },
    /// `5XY0`: skip the next instruction if `VX == VY`.
    SkipEqReg { x: u8, y: u8 },
    /// `6XNN`: `VX = NN`.
    LoadImm { x: u8, value: u8 },
    /// `7XNN`: `VX = VX + NN`, wrapping, flag untouched.
    AddImm { x: u8, value: u8 },
    /// `8XY0`: `VX = VY`.
    Copy { x: u8, y: u8 },
    /// `8XY1`: `VX = VX | VY`.
    Or { x: u8, y: u8 },
    /// `8XY2`: `VX = VX & VY`.
    And { x: u8, y: u8 },
    /// `8XY3`: `VX = VX ^ VY`.
    Xor { x: u8, y: u8 },
    /// `8XY4`: `VX = VX + VY`, wrapping; `VF` = carry.
    AddReg { x: u8, y: u8 },
    /// `8XY5`: `VX = VX - VY`, wrapping; `VF` = no borrow.
    SubReg { x: u8, y: u8 },
    /// `8XY6`: `VX = VX >> 1`; `VF` = the bit shifted out.
    ShiftRight { x: u8 },
    /// `8XY7`: `VX = VY - VX`, wrapping; `VF` = no borrow.
    SubReverse { x: u8, y: u8 },
    /// `8XYE`: `VX = VX << 1`, wrapping; `VF` = the bit shifted out.
    ShiftLeft { x: u8 },
    /// `9XY0`: skip the next instruction if `VX != VY`.
    SkipNeReg { x: u8, y: u8 },
    /// `ANNN`: `I = NNN`.
    LoadIndex { addr: u16 },
    /// `BNNN`: jump to `NNN + V0`.
    JumpOffset { addr: u16 },
    /// `CXNN`: `VX` = a random byte AND `NN`.
    Random { x: u8, mask: u8 },
    /// `DXYN`: draw the `N`-row sprite at `I` at (`VX`, `VY`); `VF` = collision.
    Draw { x: u8, y: u8, n: u8 },
    /// `EX9E`: skip the next instruction if key `VX` is down.
    SkipKeyPressed { x: u8 },
    /// `EXA1`: skip the next instruction if key `VX` is up.
    SkipKeyNotPressed { x: u8 },
    /// `FX07`: `VX` = delay timer.
    ReadDelay { x: u8 },
    /// `FX15`: delay timer = `VX`.
    SetDelay { x: u8 },
    /// `FX18`: sound timer = `VX`.
    SetSound { x: u8 },
    /// `FX29`: `I` = address of the font glyph of digit `VX`.
    FontAddress { x: u8 },
    /// `FX33`: store the decimal digits of `VX` at `I`, `I+1`, `I+2`.
    StoreBcd { x: u8 },
    /// `FX55`: store `V0`..=`VX` in memory from `I` on.
    StoreRegisters { x: u8 },
    /// `FX65`: load `V0`..=`VX` from memory from `I` on.
    LoadRegisters { x: u8 },
}

impl Instruction {
    /// Operands in range: registers below 16, a row count below 16 and an
    /// address of twelve bits. Every decoded instruction has them.
    pub open spec fn wf(self) -> bool {
        match self {
            Instruction::MachineCall { addr } => addr < 0x1000,
            Instruction::Jump { addr } => addr < 0x1000,
            Instruction::Call { addr } => addr < 0x1000,
            Instruction::LoadIndex { addr } => addr < 0x1000,
            Instruction::JumpOffset { addr } => addr < 0x1000,
            Instruction::SkipEqImm { x, .. } => x < 16,
            Instruction::SkipNeImm { x, .. } => x < 16,
            Instruction::LoadImm { x, .. } => x < 16,
            Instruction::AddImm { x, .. } => x < 16,
            Instruction::Random { x, .. } => x < 16,
            Instruction::SkipEqReg { x, y } => x < 16 && y < 16,
            Instruction::SkipNeReg { x, y } => x < 16 && y < 16,
            Instruction::Copy { x, y } => x < 16 && y < 16,
            Instruction::Or { x, y } => x < 16 && y < 16,
            Instruction::And { x, y } => x < 16 && y < 16,
            Instruction::Xor { x, y } => x < 16 && y < 16,
            Instruction::AddReg { x, y } => x < 16 && y < 16,
            Instruction::SubReg { x, y } => x < 16 && y < 16,
            Instruction::SubReverse { x, y } => x < 16 && y < 16,
            Instruction::Draw { x, y, n } => x < 16 && y < 16 && n < 16,
            Instruction::ShiftRight { x } => x < 16,
            Instruction::ShiftLeft { x } => x < 16,
            Instruction::SkipKeyPressed { x } => x < 16,
            Instruction::SkipKeyNotPressed { x } => x < 16,
            Instruction::ReadDelay { x } => x < 16,
            Instruction::SetDelay { x } => x < 16,
            Instruction::SetSound { x } => x < 16,
            Instruction::FontAddress { x } => x < 16,
            Instruction::StoreBcd { x } => x < 16,
            Instruction::StoreRegisters { x } => x < 16,
            Instruction::LoadRegisters { x } => x < 16,
            Instruction::ClearScreen => true,
            Instruction::Return => true,
        }
    }
}

/// The instruction that word `w` encodes, or `None` where `w` belongs to no
/// instruction family.
pub open spec fn decode_spec(w: u16) -> Option<Instruction> {
    let family = w / 0x1000;
    let x = ((w / 0x100) % 0x10) as u8;
    let y = ((w / 0x10) % 0x10) as u8;
    let n = (w % 0x10) as u8;
    let nn = (w % 0x100) as u8;
    let nnn = (w % 0x1000) as u16;
    if family == 0x0 {
        if w == 0x00E0 {
            Some(Instruction::ClearScreen)
        } else if w == 0x00EE {
            Some(Instruction::Return)
        } else {
            Some(Instruction::MachineCall { addr: nnn })
        }
    } else if family == 0x1 {
        Some(Instruction::Jump { addr: nnn })
    } else if family == 0x2 {
        Some(Instruction::Call { addr: nnn })
    } else if family == 0x3 {
        Some(Instruction::SkipEqImm { x, value: nn })
    } else if family == 0x4 {
        Some(Instruction::SkipNeImm { x, value: nn })
    } else if family == 0x5 {
        if n == 0x0 {
            Some(Instruction::SkipEqReg { x, y })
        } else {
            None
        }
    } else if family == 0x6 {
        Some(Instruction::LoadImm { x, value: nn })
    } else if family == 0x7 {
        Some(Instruction::AddImm { x, value: nn })
    } else if family == 0x8 {
        if n == 0x0 {
            Some(Instruction::Copy { x, y })
        } else if n == 0x1 {
            Some(Instruction::Or { x, y })
        } else if n == 0x2 {
            Some(Instruction::And { x, y })
        } else if n == 0x3 {
            Some(Instruction::Xor { x, y })
        } else if n == 0x4 {
            Some(Instruction::AddReg { x, y })
        } else if n == 0x5 {
            Some(Instruction::SubReg { x, y })
        } else if n == 0x6 {
            Some(Instruction::ShiftRight { x })
        } else if n == 0x7 {
            Some(Instruction::SubReverse { x, y })
        } else if n == 0xE {
            Some(Instruction::ShiftLeft { x })
        } else {
            None
        }
    } else if family == 0x9 {
        if n == 0x0 {
            Some(Instruction::SkipNeReg { x, y })
        } else {
            None
        }
    } else if family == 0xA {
        Some(Instruction::LoadIndex { addr: nnn })
    } else if family == 0xB {
        Some(Instruction::JumpOffset { addr: nnn })
    } else if family == 0xC {
        Some(Instruction::Random { x, mask: nn })
    } else if family == 0xD {
        Some(Instruction::Draw { x, y, n })
    } else if family == 0xE {
        if nn == 0x9E {
            Some(Instruction::SkipKeyPressed { x })
        } else if nn == 0xA1 {
            Some(Instruction::SkipKeyNotPressed { x })
        } else {
            None
        }
    } else {
        if nn == 0x07 {
            Some(Instruction::ReadDelay { x })
        } else if nn == 0x15 {
            Some(Instruction::SetDelay { x })
        } else if nn == 0x18 {
            Some(Instruction::SetSound { x })
        } else if nn == 0x29 {
            Some(Instruction::FontAddress { x })
        } else if nn == 0x33 {
            Some(Instruction::StoreBcd { x })
        } else if nn == 0x55 {
            Some(Instruction::StoreRegisters { x })
        } else if nn == 0x65 {
            Some(Instruction::LoadRegisters { x })
        } else {
            None
        }
    }
}

/// Shifts and masks pick out the same fields as division and remainder.
proof fn lemma_fields(w: u16)
    ensures
        w >> 12u16 == w / 0x1000,
        (w >> 8u16) & 0xF == (w / 0x100) % 0x10,
        (w >> 4u16) & 0xF == (w / 0x10) % 0x10,
        w & 0xF == w % 0x10,
        w & 0xFF == w % 0x100,
        w & 0xFFF == w % 0x1000,
        w / 0x1000 < 16,
{
    assert(w >> 12u16 == w / 0x1000) by (bit_vector);
    assert((w >> 8u16) & 0xF == (w / 0x100) % 0x10) by (bit_vector);
    assert((w >> 4u16) & 0xF == (w / 0x10) % 0x10) by (bit_vector);
    assert(w & 0xF == w % 0x10) by (bit_vector);
    assert(w & 0xFF == w % 0x100) by (bit_vector);
    assert(w & 0xFFF == w % 0x1000) by (bit_vector);
}

/// Decodes one instruction word.
pub fn decode(w: u16) -> (r: Option<Instruction>)
    ensures
        r == decode_spec(w),
        r matches Some(ins) ==> ins.wf(),
{
    proof {
        lemma_fields(w);
    }
    let family = w >> 12;
    let x = ((w >> 8) & 0xF) as u8;
    let y = ((w >> 4) & 0xF) as u8;
    let n = (w & 0xF) as u8;
    let nn = (w & 0xFF) as u8;
    let nnn = w & 0xFFF;
    match family {
        0x0 => {
            if w == 0x00E0 {
                Some(Instruction::ClearScreen)
            } else if w == 0x00EE {
                Some(Instruction::Return)
            } else {
                Some(Instruction::MachineCall { addr: nnn })
            }
        },
        0x1 => Some(Instruction::Jump { addr: nnn }),
        0x2 => Some(Instruction::Call { addr: nnn }),
        0x3 => Some(Instruction::SkipEqImm { x, value: nn }),
        0x4 => Some(Instruction::SkipNeImm { x, value: nn }),
        0x5 => match n {
            0x0 => Some(Instruction::SkipEqReg { x, y }),
            _ => None,
        },
        0x6 => Some(Instruction::LoadImm { x, value: nn }),
        0x7 => Some(Instruction::AddImm { x, value: nn }),
        0x8 => match n {
            0x0 => Some(Instruction::Copy { x, y }),
            0x1 => Some(Instruction::Or { x, y }),
            0x2 => Some(Instruction::And { x, y }),
            0x3 => Some(Instruction::Xor { x, y }),
            0x4 => Some(Instruction::AddReg { x, y }),
            0x5 => Some(Instruction::SubReg { x, y }),
            0x6 => Some(Instruction::ShiftRight { x }),
            0x7 => Some(Instruction::SubReverse { x, y }),
            0xE => Some(Instruction::ShiftLeft { x }),
            _ => None,
        },
        0x9 => match n {
            0x0 => Some(Instruction::SkipNeReg { x, y }),
            _ => None,
        },
        0xA => Some(Instruction::LoadIndex { addr: nnn }),
        0xB => Some(Instruction::JumpOffset { addr: nnn }),
        0xC => Some(Instruction::Random { x, mask: nn }),
        0xD => Some(Instruction::Draw { x, y, n }),
        0xE => match nn {
            0x9E => Some(Instruction::SkipKeyPressed { x }),
            0xA1 => Some(Instruction::SkipKeyNotPressed { x }),
            _ => None,
        },
        _ => match nn {
            0x07 => Some(Instruction::ReadDelay { x }),
            0x15 => Some(Instruction::SetDelay { x }),
            0x18 => Some(Instruction::SetSound { x }),
            0x29 => Some(Instruction::FontAddress { x }),
            0x33 => Some(Instruction::StoreBcd { x }),
            0x55 => Some(Instruction::StoreRegisters { x }),
            0x65 => Some(Instruction::LoadRegisters { x }),
            _ => None,
        },
    }
}

} // verus!
