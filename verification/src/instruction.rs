//! The instruction set: the decoded form of a 16-bit opcode and the decoder.

use vstd::prelude::*;
use vstd::arithmetic::div_mod::lemma_fundamental_div_mod_converse;

verus! {

/// One CHIP-8 instruction with its operands.
///
/// `x` and `y` name registers, `value` and `mask` are 8-bit immediates,
/// `addr` is a 12-bit address and `rows` a sprite height.
#[derive(Clone, Copy, Debug, PartialEq, Eq, Structural)]
pub enum Instruction {
    /// `0000`: do nothing.
    Nop,
    /// `00E0`: switch every pixel off.
    ClearScreen,
    /// `00EE`: return from a subroutine.
    Return,
    /// `1NNN`: jump to `addr`.
    Jump { addr: u16 },
    /// `2NNN`: call the subroutine at `addr`.
    Call { addr: u16 },
    /// `3XNN`: skip the next instruction if `VX == value`.
    SkipIfEqual { x: u8, value: u8 },
    /// `4XNN`: skip the next instruction if `VX != value`.
    SkipIfNotEqual { x: u8, value: u8 },
    /// `5XY0`: skip the next instruction if `VX == VY`.
    SkipIfRegistersEqual { x: u8, y: u8 },
    /// `6XNN`: `VX := value`.
    Load { x: u8, value: u8 },
    /// `7XNN`: `VX := VX + value`, wrapping, no flag.
    Add { x: u8, value: u8 },
    /// `8XY0`: `VX := VY`.
    Move { x: u8, y: u8 },
    /// `8XY1`: `VX := VX | VY`.
    Or { x: u8, y: u8 },
    /// `8XY2`: `VX := VX & VY`.
    And { x: u8, y: u8 },
    /// `8XY3`: `VX := VX ^ VY`.
    Xor { x: u8, y: u8 },
    /// `8XY4`: `VX := VX + VY`, wrapping; `VF` := carry.
    AddRegister { x: u8, y: u8 },
    /// `8XY5`: `VX := VX - VY`, wrapping; `VF` := 0 on borrow, else 1.
    SubRegister { x: u8, y: u8 },
    /// `8XY6`: `VF` := low bit of `VX`; `VX := VX >> 1`.
    ShiftRight { x: u8 },
    /// `8XY7`: `VX := VY - VX`, wrapping; `VF` := 0 on borrow, else 1.
    SubReversed { x: u8, y: u8 },
    /// `8XYE`: `VF` := high bit of `VX`; `VX := VX << 1`, wrapping.
    ShiftLeft { x: u8 },
    /// `9XY0`: skip the next instruction if `VX != VY`.
    SkipIfRegistersDiffer { x: u8, y: u8 },
    /// `ANNN`: `I := addr`.
    LoadIndex { addr: u16 },
    /// `BNNN`: jump to `V0 + addr`.
    JumpOffset { addr: u16 },
    /// `CXNN`: `VX :=` a random byte `& mask`.
    Random { x: u8, mask: u8 },
    /// `DXYN`: draw the sprite of `rows` rows at `I` at position `(VX, VY)`.
    Draw { x: u8, y: u8, rows: u8 },
    /// `EX9E`: skip the next instruction if key `VX` is pressed.
    SkipIfKey { x: u8 },
    /// `EXA1`: skip the next instruction if key `VX` is not pressed.
    SkipIfNotKey { x: u8 },
    /// `FX07`: `VX :=` delay timer.
    ReadDelay { x: u8 },
    /// `FX0A`: wait for a key and store its index in `VX`.
    WaitKey { x: u8 },
    /// `FX15`: delay timer `:= VX`.
    SetDelay { x: u8 },
    /// `FX18`: sound timer `:= VX`.
    SetSound { x: u8 },
    /// `FX1E`: `I := I + VX`, wrapping at sixteen bits.
    AddIndex { x: u8 },
    /// `FX29`: `I :=` address of the font glyph for `VX`.
    FontAddress { x: u8 },
    /// `FX33`: store the three decimal digits of `VX` at `I`, `I+1`, `I+2`.
    StoreDecimal { x: u8 },
    /// `FX55`: store `V0..=VX` in memory from `I`.
    StoreRegisters { x: u8 },
    /// `FX65`: load `V0..=VX` from memory from `I`.
    LoadRegisters { x: u8 },
}

impl Instruction {
    /// The operands are in range: register numbers and sprite heights below
    /// 16, addresses below 4096.
    pub open spec fn wf(self) -> bool {
        match self {
            Instruction::Nop | Instruction::ClearScreen | Instruction::Return => true,
            Instruction::Jump { addr }
            | Instruction::Call { addr }
            | Instruction::LoadIndex { addr }
            | Instruction::JumpOffset { addr } => addr < 0x1000,
            Instruction::SkipIfEqual { x, .. }
            | Instruction::SkipIfNotEqual { x, .. }
            | Instruction::Load { x, .. }
            | Instruction::Add { x, .. }
            | Instruction::Random { x, .. }
            | Instruction::ShiftRight { x }
            | Instruction::ShiftLeft { x }
            | Instruction::SkipIfKey { x }
            | Instruction::SkipIfNotKey { x }
            | Instruction::ReadDelay { x }
            | Instruction::WaitKey { x }
            | Instruction::SetDelay { x }
            | Instruction::SetSound { x }
            | Instruction::AddIndex { x }
            | Instruction::FontAddress { x }
            | Instruction::StoreDecimal { x }
            | Instruction::StoreRegisters { x }
            | Instruction::LoadRegisters { x } => x < 16,
            Instruction::SkipIfRegistersEqual { x, y }
            | Instruction::Move { x, y }
            | Instruction::Or { x, y }
            | Instruction::And { x, y }
            | Instruction::Xor { x, y }
            | Instruction::AddRegister { x, y }
            | Instruction::SubRegister { x, y }
            | Instruction::SubReversed { x, y }
            | Instruction::SkipIfRegistersDiffer { x, y } => x < 16 && y < 16,
            Instruction::Draw { x, y, rows } => x < 16 && y < 16 && rows < 16,
        }
    }
}

/// The first hexadecimal digit of an opcode: the instruction family.
pub open spec fn family_of(op: u16) -> u16 {
    op / 0x1000
}

/// The second hexadecimal digit of an opcode: the register `X`.
pub open spec fn x_of(op: u16) -> u8 {
    ((op / 0x100) % 0x10) as u8
}

/// The third hexadecimal digit of an opcode: the register `Y`.
pub open spec fn y_of(op: u16) -> u8 {
    ((op / 0x10) % 0x10) as u8
}

/// The last hexadecimal digit of an opcode: the immediate `N`.
pub open spec fn n_of(op: u16) -> u8 {
    (op % 0x10) as u8
}

/// The low byte of an opcode: the immediate `NN`.
pub open spec fn nn_of(op: u16) -> u8 {
    (op % 0x100) as u8
}

/// The low twelve bits of an opcode: the address `NNN`.
pub open spec fn nnn_of(op: u16) -> u16 {
    op % 0x1000
}

/// The instruction that an opcode stands for, or `None` where it matches no
/// pattern of the instruction set.
pub open spec fn decode_spec(op: u16) -> Option<Instruction> {
    let x = x_of(op);
    let y = y_of(op);
    let n = n_of(op);
    let nn = nn_of(op);
    let addr = nnn_of(op);
    let family = family_of(op);
    if family == 0x0 {
        if op == 0x0000 {
            Some(Instruction::Nop)
        } else if op == 0x00E0 {
            Some(Instruction::ClearScreen)
        } else if op == 0x00EE {
            Some(Instruction::Return)
        } else {
            None
        }
    } else if family == 0x1 {
        Some(Instruction::Jump { addr })
    } else if family == 0x2 {
        Some(Instruction::Call { addr })
    } else if family == 0x3 {
        Some(Instruction::SkipIfEqual { x, value: nn })
    } else if family == 0x4 {
        Some(Instruction::SkipIfNotEqual { x, value: nn })
    } else if family == 0x5 {
        if n == 0 {
            Some(Instruction::SkipIfRegistersEqual { x, y })
        } else {
            None
        }
    } else if family == 0x6 {
        Some(Instruction::Load { x, value: nn })
    } else if family == 0x7 {
        Some(Instruction::Add { x, value: nn })
    } else if family == 0x8 {
        if n == 0x0 {
            Some(Instruction::Move { x, y })
        } else if n == 0x1 {
            Some(Instruction::Or { x, y })
        } else if n == 0x2 {
            Some(Instruction::And { x, y })
        } else if n == 0x3 {
            Some(Instruction::Xor { x, y })
        } else if n == 0x4 {
            Some(Instruction::AddRegister { x, y })
        } else if n == 0x5 {
            Some(Instruction::SubRegister { x, y })
        } else if n == 0x6 {
            Some(Instruction::ShiftRight { x })
        } else if n == 0x7 {
            Some(Instruction::SubReversed { x, y })
        } else if n == 0xE {
            Some(Instruction::ShiftLeft { x })
        } else {
            None
        }
    } else if family == 0x9 {
        if n == 0 {
            Some(Instruction::SkipIfRegistersDiffer { x, y })
        } else {
            None
        }
    } else if family == 0xA {
        Some(Instruction::LoadIndex { addr })
    } else if family == 0xB {
        Some(Instruction::JumpOffset { addr })
    } else if family == 0xC {
        Some(Instruction::Random { x, mask: nn })
    } else if family == 0xD {
        Some(Instruction::Draw { x, y, rows: n })
    } else if family == 0xE {
        if nn == 0x9E {
            Some(Instruction::SkipIfKey { x })
        } else if nn == 0xA1 {
            Some(Instruction::SkipIfNotKey { x })
        } else {
            None
        }
    } else {
        if nn == 0x07 {
            Some(Instruction::ReadDelay { x })
        } else if nn == 0x0A {
            Some(Instruction::WaitKey { x })
        } else if nn == 0x15 {
            Some(Instruction::SetDelay { x })
        } else if nn == 0x18 {
            Some(Instruction::SetSound { x })
        } else if nn == 0x1E {
            Some(Instruction::AddIndex { x })
        } else if nn == 0x29 {
            Some(Instruction::FontAddress { x })
        } else if nn == 0x33 {
            Some(Instruction::StoreDecimal { x })
        } else if nn == 0x55 {
            Some(Instruction::StoreRegisters { x })
        } else if nn == 0x65 {
            Some(Instruction::LoadRegisters { x })
        } else {
            None
        }
    }
}

/// Whatever an opcode decodes to has its operands in range.
pub proof fn lemma_decoded_wf(op: u16)
    ensures
        decode_spec(op) matches Some(instruction) ==> instruction.wf(),
{
}

/// The opcode made of a family digit, a register and an 8-bit immediate.
pub open spec fn op_xnn(family: int, x: u8, nn: u8) -> u16 {
    (0x1000 * family + 0x100 * x + nn) as u16
}

/// The opcode made of a family digit, two registers and a last digit.
pub open spec fn op_xyn(family: int, x: u8, y: u8, n: int) -> u16 {
    (0x1000 * family + 0x100 * x + 0x10 * y + n) as u16
}

/// The opcode made of a family digit and a 12-bit address.
pub open spec fn op_nnn(family: int, addr: u16) -> u16 {
    (0x1000 * family + addr) as u16
}

/// The opcode that stands for an instruction. The shift instructions,
/// which ignore their `Y` digit, are written with `Y = 0`.
pub open spec fn encode(instruction: Instruction) -> u16 {
    match instruction {
        Instruction::Nop => 0x0000,
        Instruction::ClearScreen => 0x00E0,
        Instruction::Return => 0x00EE,
        Instruction::Jump { addr } => op_nnn(0x1, addr),
        Instruction::Call { addr } => op_nnn(0x2, addr),
        Instruction::SkipIfEqual { x, value } => op_xnn(0x3, x, value),
        Instruction::SkipIfNotEqual { x, value } => op_xnn(0x4, x, value),
        Instruction::SkipIfRegistersEqual { x, y } => op_xyn(0x5, x, y, 0x0),
        Instruction::Load { x, value } => op_xnn(0x6, x, value),
        Instruction::Add { x, value } => op_xnn(0x7, x, value),
        Instruction::Move { x, y } => op_xyn(0x8, x, y, 0x0),
        Instruction::Or { x, y } => op_xyn(0x8, x, y, 0x1),
        Instruction::And { x, y } => op_xyn(0x8, x, y, 0x2),
        Instruction::Xor { x, y } => op_xyn(0x8, x, y, 0x3),
        Instruction::AddRegister { x, y } => op_xyn(0x8, x, y, 0x4),
        Instruction::SubRegister { x, y } => op_xyn(0x8, x, y, 0x5),
        Instruction::ShiftRight { x } => op_xyn(0x8, x, 0, 0x6),
        Instruction::SubReversed { x, y } => op_xyn(0x8, x, y, 0x7),
        Instruction::ShiftLeft { x } => op_xyn(0x8, x, 0, 0xE),
        Instruction::SkipIfRegistersDiffer { x, y } => op_xyn(0x9, x, y, 0x0),
        Instruction::LoadIndex { addr } => op_nnn(0xA, addr),
        Instruction::JumpOffset { addr } => op_nnn(0xB, addr),
        Instruction::Random { x, mask } => op_xnn(0xC, x, mask),
        Instruction::Draw { x, y, rows } => op_xyn(0xD, x, y, rows as int),
        Instruction::SkipIfKey { x } => op_xnn(0xE, x, 0x9E),
        Instruction::SkipIfNotKey { x } => op_xnn(0xE, x, 0xA1),
        Instruction::ReadDelay { x } => op_xnn(0xF, x, 0x07),
        Instruction::WaitKey { x } => op_xnn(0xF, x, 0x0A),
        Instruction::SetDelay { x } => op_xnn(0xF, x, 0x15),
        Instruction::SetSound { x } => op_xnn(0xF, x, 0x18),
        Instruction::AddIndex { x } => op_xnn(0xF, x, 0x1E),
        Instruction::FontAddress { x } => op_xnn(0xF, x, 0x29),
        Instruction::StoreDecimal { x } => op_xnn(0xF, x, 0x33),
        Instruction::StoreRegisters { x } => op_xnn(0xF, x, 0x55),
        Instruction::LoadRegisters { x } => op_xnn(0xF, x, 0x65),
    }
}

/// The digits of an opcode made of a family, a register and an immediate.
pub proof fn lemma_op_xnn(family: int, x: u8, nn: u8)
    requires
        0 <= family < 16,
        x < 16,
    ensures
        family_of(op_xnn(family, x, nn)) == family,
        x_of(op_xnn(family, x, nn)) == x,
        nn_of(op_xnn(family, x, nn)) == nn,
        n_of(op_xnn(family, x, nn)) == nn % 16,
{
}

/// The digits of an opcode made of a family, two registers and a digit.
pub proof fn lemma_op_xyn(family: int, x: u8, y: u8, n: int)
    requires
        0 <= family < 16,
        x < 16,
        y < 16,
        0 <= n < 16,
    ensures
        family_of(op_xyn(family, x, y, n)) == family,
        x_of(op_xyn(family, x, y, n)) == x,
        y_of(op_xyn(family, x, y, n)) == y,
        n_of(op_xyn(family, x, y, n)) == n,
{
    let op = 0x1000 * family + 0x100 * x + 0x10 * y + n;
    lemma_fundamental_div_mod_converse(op, 0x1000, family, 0x100 * x + 0x10 * y + n);
    lemma_fundamental_div_mod_converse(op, 0x100, 0x10 * family + x, 0x10 * y + n);
    lemma_fundamental_div_mod_converse(0x10 * family + x, 0x10, family, x as int);
    lemma_fundamental_div_mod_converse(op, 0x10, 0x100 * family + 0x10 * x + y, n);
    lemma_fundamental_div_mod_converse(0x100 * family + 0x10 * x + y, 0x10, 0x10 * family + x, y as int);
}

/// The digits of an opcode made of a family and an address.
pub proof fn lemma_op_nnn(family: int, addr: u16)
    requires
        0 <= family < 16,
        addr < 0x1000,
    ensures
        family_of(op_nnn(family, addr)) == family,
        nnn_of(op_nnn(family, addr)) == addr,
{
}

/// Decoding undoes encoding: the opcode written for an instruction with
/// operands in range decodes to that instruction.
pub proof fn lemma_decode_encode(instruction: Instruction)
    requires
        instruction.wf(),
    ensures
        decode_spec(encode(instruction)) == Some(instruction),
{
    match instruction {
        Instruction::Nop | Instruction::ClearScreen | Instruction::Return => {},
        Instruction::Jump { addr } => lemma_op_nnn(0x1, addr),
        Instruction::Call { addr } => lemma_op_nnn(0x2, addr),
        Instruction::SkipIfEqual { x, value } => lemma_op_xnn(0x3, x, value),
        Instruction::SkipIfNotEqual { x, value } => lemma_op_xnn(0x4, x, value),
        Instruction::SkipIfRegistersEqual { x, y } => lemma_op_xyn(0x5, x, y, 0x0),
        Instruction::Load { x, value } => lemma_op_xnn(0x6, x, value),
        Instruction::Add { x, value } => lemma_op_xnn(0x7, x, value),
        Instruction::Move { x, y } => lemma_op_xyn(0x8, x, y, 0x0),
        Instruction::Or { x, y } => lemma_op_xyn(0x8, x, y, 0x1),
        Instruction::And { x, y } => lemma_op_xyn(0x8, x, y, 0x2),
        Instruction::Xor { x, y } => lemma_op_xyn(0x8, x, y, 0x3),
        Instruction::AddRegister { x, y } => lemma_op_xyn(0x8, x, y, 0x4),
        Instruction::SubRegister { x, y } => lemma_op_xyn(0x8, x, y, 0x5),
        Instruction::ShiftRight { x } => lemma_op_xyn(0x8, x, 0, 0x6),
        Instruction::SubReversed { x, y } => lemma_op_xyn(0x8, x, y, 0x7),
        Instruction::ShiftLeft { x } => lemma_op_xyn(0x8, x, 0, 0xE),
        Instruction::SkipIfRegistersDiffer { x, y } => lemma_op_xyn(0x9, x, y, 0x0),
        Instruction::LoadIndex { addr } => lemma_op_nnn(0xA, addr),
        Instruction::JumpOffset { addr } => lemma_op_nnn(0xB, addr),
        Instruction::Random { x, mask } => lemma_op_xnn(0xC, x, mask),
        Instruction::Draw { x, y, rows } => lemma_op_xyn(0xD, x, y, rows as int),
        Instruction::SkipIfKey { x } => lemma_op_xnn(0xE, x, 0x9E),
        Instruction::SkipIfNotKey { x } => lemma_op_xnn(0xE, x, 0xA1),
        Instruction::ReadDelay { x } => lemma_op_xnn(0xF, x, 0x07),
        Instruction::WaitKey { x } => lemma_op_xnn(0xF, x, 0x0A),
        Instruction::SetDelay { x } => lemma_op_xnn(0xF, x, 0x15),
        Instruction::SetSound { x } => lemma_op_xnn(0xF, x, 0x18),
        Instruction::AddIndex { x } => lemma_op_xnn(0xF, x, 0x1E),
        Instruction::FontAddress { x } => lemma_op_xnn(0xF, x, 0x29),
        Instruction::StoreDecimal { x } => lemma_op_xnn(0xF, x, 0x33),
        Instruction::StoreRegisters { x } => lemma_op_xnn(0xF, x, 0x55),
        Instruction::LoadRegisters { x } => lemma_op_xnn(0xF, x, 0x65),
    }
}

/// Decodes an opcode.
///
/// Returns the instruction that the opcode's four digits select, with its
/// operands, and `None` exactly for the words that match no pattern.
#[verifier::when_used_as_spec(decode_spec)]
pub fn decode(op: u16) -> (instruction: Option<Instruction>)
    ensures
        instruction == decode_spec(op),
        instruction matches Some(i) ==> i.wf(),
{
    let family: u16 = (op & 0xF000) >> 12;
    let x: u8 = ((op & 0x0F00) >> 8) as u8;
    let y: u8 = ((op & 0x00F0) >> 4) as u8;
    let n: u8 = (op & 0x000F) as u8;
    let nn: u8 = (op & 0x00FF) as u8;
    let addr: u16 = op & 0x0FFF;
    assert((op & 0xF000) >> 12 == op / 0x1000) by (bit_vector);
    assert((op & 0x0F00) >> 8 == (op / 0x100) % 0x10) by (bit_vector);
    assert((op & 0x00F0) >> 4 == (op / 0x10) % 0x10) by (bit_vector);
    assert(op & 0x000F == op % 0x10) by (bit_vector);
    assert(op & 0x00FF == op % 0x100) by (bit_vector);
    assert(op & 0x0FFF == op % 0x1000) by (bit_vector);
    match family {
        0x0 => match op {
            0x0000 => Some(Instruction::Nop),
            0x00E0 => Some(Instruction::ClearScreen),
            0x00EE => Some(Instruction::Return),
            _ => None,
        },
        0x1 => Some(Instruction::Jump { addr }),
        0x2 => Some(Instruction::Call { addr }),
        0x3 => Some(Instruction::SkipIfEqual { x, value: nn }),
        0x4 => Some(Instruction::SkipIfNotEqual { x, value: nn }),
        0x5 => match n {
            0x0 => Some(Instruction::SkipIfRegistersEqual { x, y }),
            _ => None,
        },
        0x6 => Some(Instruction::Load { x, value: nn }),
        0x7 => Some(Instruction::Add { x, value: nn }),
        0x8 => match n {
            0x0 => Some(Instruction::Move { x, y }),
            0x1 => Some(Instruction::Or { x, y }),
            0x2 => Some(Instruction::And { x, y }),
            0x3 => Some(Instruction::Xor { x, y }),
            0x4 => Some(Instruction::AddRegister { x, y }),
            0x5 => Some(Instruction::SubRegister { x, y }),
            0x6 => Some(Instruction::ShiftRight { x }),
            0x7 => Some(Instruction::SubReversed { x, y }),
            0xE => Some(Instruction::ShiftLeft { x }),
            _ => None,
        },
        0x9 => match n {
            0x0 => Some(Instruction::SkipIfRegistersDiffer { x, y }),
            _ => None,
        },
        0xA => Some(Instruction::LoadIndex { addr }),
        0xB => Some(Instruction::JumpOffset { addr }),
        0xC => Some(Instruction::Random { x, mask: nn }),
        0xD => Some(Instruction::Draw { x, y, rows: n }),
        0xE => match nn {
            0x9E => Some(Instruction::SkipIfKey { x }),
            0xA1 => Some(Instruction::SkipIfNotKey { x }),
            _ => None,
        },
        _ => match nn {
            0x07 => Some(Instruction::ReadDelay { x }),
            0x0A => Some(Instruction::WaitKey { x }),
            0x15 => Some(Instruction::SetDelay { x }),
            0x18 => Some(Instruction::SetSound { x }),
            0x1E => Some(Instruction::AddIndex { x }),
            0x29 => Some(Instruction::FontAddress { x }),
            0x33 => Some(Instruction::StoreDecimal { x }),
            0x55 => Some(Instruction::StoreRegisters { x }),
            0x65 => Some(Instruction::LoadRegisters { x }),
            _ => None,
        },
    }
}

} // verus!
