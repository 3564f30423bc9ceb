//! The instruction set: the thirty-four instructions, how each is
//! written as a 16-bit opcode, and how an opcode is read back.
//!
//! An opcode is four hexadecimal digits. The first selects a family; the
//! others are operands or select a member of the family. `X` and `Y` name
//! registers, `N` is a 4-bit number, `NN` a byte and `NNN` an address.
//! Opcodes of the family `0` other than `00E0` and `00EE`, machine-code
//! calls on the first machines, are not instructions here.

use vstd::arithmetic::div_mod::lemma_fundamental_div_mod_converse;
use vstd::prelude::*;

verus! {

/// A decoded instruction. The comment on each variant gives its opcode.
#[derive(Clone, Copy, Debug, PartialEq, Eq, Structural)]
pub enum Instruction {
    /// `00E0`. Turn every cell of the display dark.
    ClearScreen,
    /// `00EE`. Return from a subroutine: pop the program counter off the stack.
    Return,
    /// `1NNN`. Continue at `addr`.
    Jump { addr: u16 },
    /// `2NNN`. Call the subroutine at `addr`: push the address of the next
    /// instruction and continue at `addr`.
    Call { addr: u16 },
    /// `3XNN`. Skip the next instruction if `Vx == nn`.
    SkipEqImm { x: u8, nn: u8 },
    /// `4XNN`. Skip the next instruction if `Vx != nn`.
    SkipNeImm { x: u8, nn: u8 },
    /// `5XY0`. Skip the next instruction if `Vx == Vy`.
    SkipEqReg { x: u8, y: u8 },
    /// `6XNN`. `Vx = nn`.
    LoadImm { x: u8, nn: u8 },
    /// `7XNN`. `Vx = Vx + nn` modulo 256; the flag register is not written.
    AddImm { x: u8, nn: u8 },
    /// `8XY0`. `Vx = Vy`.
    Move { x: u8, y: u8 },
    /// `8XY1`. `Vx = Vx | Vy`; the flag register is not written.
    Or { x: u8, y: u8 },
    /// `8XY2`. `Vx = Vx & Vy`; the flag register is not written.
    And { x: u8, y: u8 },
    /// `8XY3`. `Vx = Vx ^ Vy`; the flag register is not written.
    Xor { x: u8, y: u8 },
    /// `8XY4`. `Vx = Vx + Vy` modulo 256; `VF` is 1 on a carry, else 0.
    Add { x: u8, y: u8 },
    /// `8XY5`. `Vx = Vx - Vy` modulo 256; `VF` is 0 on a borrow, else 1.
    Sub { x: u8, y: u8 },
    /// `8XY6`. `Vx = Vx >> 1`; `VF` is the bit shifted out. `y` is not used.
    ShiftRight { x: u8, y: u8 },
    /// `8XY7`. `Vx = Vy - Vx` modulo 256; `VF` is 0 on a borrow, else 1.
    SubFrom { x: u8, y: u8 },
    /// `8XYE`. `Vx = Vx << 1` modulo 256; `VF` is the bit shifted out. `y` is
    /// not used.
    ShiftLeft { x: u8, y: u8 },
    /// `9XY0`. Skip the next instruction if `Vx != Vy`.
    SkipNeReg { x: u8, y: u8 },
    /// `ANNN`. `I = addr`.
    LoadIndex { addr: u16 },
    /// `BNNN`. Continue at `addr + V0`.
    JumpOffset { addr: u16 },
    /// `CXNN`. `Vx = random byte & nn`.
    Random { x: u8, nn: u8 },
    /// `DXYN`. Draw the `n`-byte sprite at `I` with its corner at (`Vx`, `Vy`),
    /// wrapping at the edges; `VF` is 1 if a lit cell turned dark, else 0.
    Draw { x: u8, y: u8, n: u8 },
    /// `EX9E`. Skip the next instruction if the key with digit `Vx % 16` is down.
    SkipKey { x: u8 },
    /// `EXA1`. Skip the next instruction if the key with digit `Vx % 16` is up.
    SkipNotKey { x: u8 },
    /// `FX07`. `Vx = delay timer`.
    ReadDelay { x: u8 },
    /// `FX0A`. Wait for a key: if a key is down, store the lowest such digit in
    /// `Vx` and go on; otherwise stay at this instruction.
    WaitKey { x: u8 },
    /// `FX15`. `delay timer = Vx`.
    SetDelay { x: u8 },
    /// `FX18`. `sound timer = Vx`.
    SetSound { x: u8 },
    /// `FX1E`. `I = I + Vx`; a sum beyond `0xFFF` is a fault.
    AddIndex { x: u8 },
    /// `FX29`. `I` = address of the glyph for the digit `Vx % 16`.
    Glyph { x: u8 },
    /// `FX33`. Store the three decimal digits of `Vx` at `I`, `I + 1`, `I + 2`.
    Bcd { x: u8 },
    /// `FX55`. Store `V0` to `Vx` at `I` and the addresses after it; `I`
    /// stays as it is.
    Dump { x: u8 },
    /// `FX65`. Load `V0` to `Vx` from `I` and the addresses after it; `I`
    /// stays as it is.
    Load { x: u8 },
}

/// First digit of an opcode: the family.
pub open spec fn op_family(opcode: u16) -> int {
    opcode as int / 0x1000
}

/// Second digit of an opcode: the register `X`.
pub open spec fn op_x(opcode: u16) -> u8 {
    ((opcode as int / 0x100) % 0x10) as u8
}

/// Third digit of an opcode: the register `Y`.
pub open spec fn op_y(opcode: u16) -> u8 {
    ((opcode as int / 0x10) % 0x10) as u8
}

/// Last digit of an opcode: the number `N`.
pub open spec fn op_n(opcode: u16) -> u8 {
    (opcode as int % 0x10) as u8
}

/// Last two digits of an opcode: the byte `NN`.
pub open spec fn op_nn(opcode: u16) -> u8 {
    (opcode as int % 0x100) as u8
}

/// Last three digits of an opcode: the address `NNN`.
pub open spec fn op_nnn(opcode: u16) -> u16 {
    (opcode as int % 0x1000) as u16
}

impl Instruction {
    /// Whether the operands fit their fields: register numbers and `n`
    /// below 16, addresses below 4096.
    pub open spec fn wf(self) -> bool {
        match self {
            Instruction::ClearScreen => true,
            Instruction::Return => true,
            Instruction::Jump { addr } => addr < 0x1000,
            Instruction::Call { addr } => addr < 0x1000,
            Instruction::SkipEqImm { x, nn } => x < 16,
            Instruction::SkipNeImm { x, nn } => x < 16,
            Instruction::SkipEqReg { x, y } => x < 16 && y < 16,
            Instruction::LoadImm { x, nn } => x < 16,
            Instruction::AddImm { x, nn } => x < 16,
            Instruction::Move { x, y } => x < 16 && y < 16,
            Instruction::Or { x, y } => x < 16 && y < 16,
            Instruction::And { x, y } => x < 16 && y < 16,
            Instruction::Xor { x, y } => x < 16 && y < 16,
            Instruction::Add { x, y } => x < 16 && y < 16,
            Instruction::Sub { x, y } => x < 16 && y < 16,
            Instruction::ShiftRight { x, y } => x < 16 && y < 16,
            Instruction::SubFrom { x, y } => x < 16 && y < 16,
            Instruction::ShiftLeft { x, y } => x < 16 && y < 16,
            Instruction::SkipNeReg { x, y } => x < 16 && y < 16,
            Instruction::LoadIndex { addr } => addr < 0x1000,
            Instruction::JumpOffset { addr } => addr < 0x1000,
            Instruction::Random { x, nn } => x < 16,
            Instruction::Draw { x, y, n } => x < 16 && y < 16 && n < 16,
            Instruction::SkipKey { x } => x < 16,
            Instruction::SkipNotKey { x } => x < 16,
            Instruction::ReadDelay { x } => x < 16,
            Instruction::WaitKey { x } => x < 16,
            Instruction::SetDelay { x } => x < 16,
            Instruction::SetSound { x } => x < 16,
            Instruction::AddIndex { x } => x < 16,
            Instruction::Glyph { x } => x < 16,
            Instruction::Bcd { x } => x < 16,
            Instruction::Dump { x } => x < 16,
            Instruction::Load { x } => x < 16,
        }
    }

    /// The opcode that stands for the instruction.
    pub open spec fn encoding(self) -> int {
        match self {
            Instruction::ClearScreen => 0x00E0,
            Instruction::Return => 0x00EE,
            Instruction::Jump { addr } => 0x1000 + addr,
            Instruction::Call { addr } => 0x2000 + addr,
            Instruction::SkipEqImm { x, nn } => 0x3000 + x * 0x100 + nn,
            Instruction::SkipNeImm { x, nn } => 0x4000 + x * 0x100 + nn,
            Instruction::SkipEqReg { x, y } => 0x5000 + x * 0x100 + y * 0x10,
            Instruction::LoadImm { x, nn } => 0x6000 + x * 0x100 + nn,
            Instruction::AddImm { x, nn } => 0x7000 + x * 0x100 + nn,
            Instruction::Move { x, y } => 0x8000 + x * 0x100 + y * 0x10,
            Instruction::Or { x, y } => 0x8001 + x * 0x100 + y * 0x10,
            Instruction::And { x, y } => 0x8002 + x * 0x100 + y * 0x10,
            Instruction::Xor { x, y } => 0x8003 + x * 0x100 + y * 0x10,
            Instruction::Add { x, y } => 0x8004 + x * 0x100 + y * 0x10,
            Instruction::Sub { x, y } => 0x8005 + x * 0x100 + y * 0x10,
            Instruction::ShiftRight { x, y } => 0x8006 + x * 0x100 + y * 0x10,
            Instruction::SubFrom { x, y } => 0x8007 + x * 0x100 + y * 0x10,
            Instruction::ShiftLeft { x, y } => 0x800E + x * 0x100 + y * 0x10,
            Instruction::SkipNeReg { x, y } => 0x9000 + x * 0x100 + y * 0x10,
            Instruction::LoadIndex { addr } => 0xA000 + addr,
            Instruction::JumpOffset { addr } => 0xB000 + addr,
            Instruction::Random { x, nn } => 0xC000 + x * 0x100 + nn,
            Instruction::Draw { x, y, n } => 0xD000 + x * 0x100 + y * 0x10 + n,
            Instruction::SkipKey { x } => 0xE09E + x * 0x100,
            Instruction::SkipNotKey { x } => 0xE0A1 + x * 0x100,
            Instruction::ReadDelay { x } => 0xF007 + x * 0x100,
            Instruction::WaitKey { x } => 0xF00A + x * 0x100,
            Instruction::SetDelay { x } => 0xF015 + x * 0x100,
            Instruction::SetSound { x } => 0xF018 + x * 0x100,
            Instruction::AddIndex { x } => 0xF01E + x * 0x100,
            Instruction::Glyph { x } => 0xF029 + x * 0x100,
            Instruction::Bcd { x } => 0xF033 + x * 0x100,
            Instruction::Dump { x } => 0xF055 + x * 0x100,
            Instruction::Load { x } => 0xF065 + x * 0x100,
        }
    }
}

/// The instruction that `opcode` stands for, if it stands for any.
pub open spec fn decoded(opcode: u16) -> Option<Instruction> {
    let x = op_x(opcode);
    let y = op_y(opcode);
    let n = op_n(opcode);
    let nn = op_nn(opcode);
    let addr = op_nnn(opcode);
    let family = op_family(opcode);
    if family == 0x0 {
        if opcode == 0x00E0 {
            Some(Instruction::ClearScreen)
        } else if opcode == 0x00EE {
            Some(Instruction::Return)
        } else {
            None
        }
    } else if family == 0x1 {
        Some(Instruction::Jump { addr })
    } else if family == 0x2 {
        Some(Instruction::Call { addr })
    } else if family == 0x3 {
        Some(Instruction::SkipEqImm { x, nn })
    } else if family == 0x4 {
        Some(Instruction::SkipNeImm { x, nn })
    } else if family == 0x5 {
        if n == 0 {
            Some(Instruction::SkipEqReg { x, y })
        } else {
            None
        }
    } else if family == 0x6 {
        Some(Instruction::LoadImm { x, nn })
    } else if family == 0x7 {
        Some(Instruction::AddImm { x, nn })
    } else if family == 0x8 {
        if n == 0x0 {
            Some(Instruction::Move { x, y })
        } else if n == 0x1 {
            Some(Instruction::Or { x, y })
        } else if n == 0x2 {
            Some(Instruction::And { x, y })
        } else if n == 0x3 {
            Some(Instruction::Xor { x, y })
        } else if n == 0x4 {
            Some(Instruction::Add { x, y })
        } else if n == 0x5 {
            Some(Instruction::Sub { x, y })
        } else if n == 0x6 {
            Some(Instruction::ShiftRight { x, y })
        } else if n == 0x7 {
            Some(Instruction::SubFrom { x, y })
        } else if n == 0xE {
            Some(Instruction::ShiftLeft { x, y })
        } else {
            None
        }
    } else if family == 0x9 {
        if n == 0 {
            Some(Instruction::SkipNeReg { x, y })
        } else {
            None
        }
    } else if family == 0xA {
        Some(Instruction::LoadIndex { addr })
    } else if family == 0xB {
        Some(Instruction::JumpOffset { addr })
    } else if family == 0xC {
        Some(Instruction::Random { x, nn })
    } else if family == 0xD {
        Some(Instruction::Draw { x, y, n })
    } else if family == 0xE {
        if nn == 0x9E {
            Some(Instruction::SkipKey { x })
        } else if nn == 0xA1 {
            Some(Instruction::SkipNotKey { x })
        } else {
            None
        }
    } else {
        if nn == 0x07 {
            Some(Instruction::ReadDelay { x })
        } else if nn == 0x0A {
            Some(Instruction::WaitKey { x })
        } else if nn == 0x15 {
            Some(Instruction::SetDelay { x })
        } else if nn == 0x18 {
            Some(Instruction::SetSound { x })
        } else if nn == 0x1E {
            Some(Instruction::AddIndex { x })
        } else if nn == 0x29 {
            Some(Instruction::Glyph { x })
        } else if nn == 0x33 {
            Some(Instruction::Bcd { x })
        } else if nn == 0x55 {
            Some(Instruction::Dump { x })
        } else if nn == 0x65 {
            Some(Instruction::Load { x })
        } else {
            None
        }
    }
}

/// Reads an opcode: the instruction it stands for, or `None` for an
/// opcode that stands for none. The instruction found is the one, with
/// operands that fit, whose encoding is `opcode`; where none is found,
/// no such instruction has that encoding.
pub fn decode(opcode: u16) -> (ins: Option<Instruction>)
    ensures
        ins == decoded(opcode),
        match ins {
            Some(found) => found.wf() && found.encoding() == opcode,
            None => forall|other: Instruction| other.wf() ==> #[trigger] other.encoding() != opcode,
        },
{
    proof {
        lemma_encoding_decoded(opcode);
        assert forall|other: Instruction| other.wf() && #[trigger] other.encoding()
            == opcode implies decoded(opcode) == Some(other) by {
            lemma_decode_encoding(other);
        }
    }
    let x: u8 = ((opcode / 0x100) % 0x10) as u8;
    let y: u8 = ((opcode / 0x10) % 0x10) as u8;
    let n: u8 = (opcode % 0x10) as u8;
    let nn: u8 = (opcode % 0x100) as u8;
    let addr: u16 = opcode % 0x1000;
    match opcode / 0x1000 {
        0x0 => match opcode {
            0x00E0 => Some(Instruction::ClearScreen),
            0x00EE => Some(Instruction::Return),
            _ => None,
        },
        0x1 => Some(Instruction::Jump { addr }),
        0x2 => Some(Instruction::Call { addr }),
        0x3 => Some(Instruction::SkipEqImm { x, nn }),
        0x4 => Some(Instruction::SkipNeImm { x, nn }),
        0x5 => match n {
            0x0 => Some(Instruction::SkipEqReg { x, y }),
            _ => None,
        },
        0x6 => Some(Instruction::LoadImm { x, nn }),
        0x7 => Some(Instruction::AddImm { x, nn }),
        0x8 => match n {
            0x0 => Some(Instruction::Move { x, y }),
            0x1 => Some(Instruction::Or { x, y }),
            0x2 => Some(Instruction::And { x, y }),
            0x3 => Some(Instruction::Xor { x, y }),
            0x4 => Some(Instruction::Add { x, y }),
            0x5 => Some(Instruction::Sub { x, y }),
            0x6 => Some(Instruction::ShiftRight { x, y }),
            0x7 => Some(Instruction::SubFrom { x, y }),
            0xE => Some(Instruction::ShiftLeft { x, y }),
            _ => None,
        },
        0x9 => match n {
            0x0 => Some(Instruction::SkipNeReg { x, y }),
            _ => None,
        },
        0xA => Some(Instruction::LoadIndex { addr }),
        0xB => Some(Instruction::JumpOffset { addr }),
        0xC => Some(Instruction::Random { x, nn }),
        0xD => Some(Instruction::Draw { x, y, n }),
        0xE => match nn {
            0x9E => Some(Instruction::SkipKey { x }),
            0xA1 => Some(Instruction::SkipNotKey { x }),
            _ => None,
        },
        _ => match nn {
            0x07 => Some(Instruction::ReadDelay { x }),
            0x0A => Some(Instruction::WaitKey { x }),
            0x15 => Some(Instruction::SetDelay { x }),
            0x18 => Some(Instruction::SetSound { x }),
            0x1E => Some(Instruction::AddIndex { x }),
            0x29 => Some(Instruction::Glyph { x }),
            0x33 => Some(Instruction::Bcd { x }),
            0x55 => Some(Instruction::Dump { x }),
            0x65 => Some(Instruction::Load { x }),
            _ => None,
        },
    }
}

/// Writes an instruction as its opcode; `None` for an instruction with
/// an operand that does not fit its field.
pub fn encode(ins: Instruction) -> (opcode: Option<u16>)
    ensures
        match opcode {
            Some(code) => ins.wf() && code == ins.encoding(),
            None => !ins.wf(),
        },
{
    if !operands_fit(ins) {
        return None;
    }
    let opcode: u16 = match ins {
        Instruction::ClearScreen => 0x00E0,
        Instruction::Return => 0x00EE,
        Instruction::Jump { addr } => 0x1000 + addr,
        Instruction::Call { addr } => 0x2000 + addr,
        Instruction::SkipEqImm { x, nn } => 0x3000 + (x as u16) * 0x100 + nn as u16,
        Instruction::SkipNeImm { x, nn } => 0x4000 + (x as u16) * 0x100 + nn as u16,
        Instruction::SkipEqReg { x, y } => 0x5000 + (x as u16) * 0x100 + (y as u16) * 0x10,
        Instruction::LoadImm { x, nn } => 0x6000 + (x as u16) * 0x100 + nn as u16,
        Instruction::AddImm { x, nn } => 0x7000 + (x as u16) * 0x100 + nn as u16,
        Instruction::Move { x, y } => 0x8000 + (x as u16) * 0x100 + (y as u16) * 0x10,
        Instruction::Or { x, y } => 0x8001 + (x as u16) * 0x100 + (y as u16) * 0x10,
        Instruction::And { x, y } => 0x8002 + (x as u16) * 0x100 + (y as u16) * 0x10,
        Instruction::Xor { x, y } => 0x8003 + (x as u16) * 0x100 + (y as u16) * 0x10,
        Instruction::Add { x, y } => 0x8004 + (x as u16) * 0x100 + (y as u16) * 0x10,
        Instruction::Sub { x, y } => 0x8005 + (x as u16) * 0x100 + (y as u16) * 0x10,
        Instruction::ShiftRight { x, y } => 0x8006 + (x as u16) * 0x100 + (y as u16) * 0x10,
        Instruction::SubFrom { x, y } => 0x8007 + (x as u16) * 0x100 + (y as u16) * 0x10,
        Instruction::ShiftLeft { x, y } => 0x800E + (x as u16) * 0x100 + (y as u16) * 0x10,
        Instruction::SkipNeReg { x, y } => 0x9000 + (x as u16) * 0x100 + (y as u16) * 0x10,
        Instruction::LoadIndex { addr } => 0xA000 + addr,
        Instruction::JumpOffset { addr } => 0xB000 + addr,
        Instruction::Random { x, nn } => 0xC000 + (x as u16) * 0x100 + nn as u16,
        Instruction::Draw { x, y, n } => {
            0xD000 + (x as u16) * 0x100 + (y as u16) * 0x10 + n as u16
        },
        Instruction::SkipKey { x } => 0xE09E + (x as u16) * 0x100,
        Instruction::SkipNotKey { x } => 0xE0A1 + (x as u16) * 0x100,
        Instruction::ReadDelay { x } => 0xF007 + (x as u16) * 0x100,
        Instruction::WaitKey { x } => 0xF00A + (x as u16) * 0x100,
        Instruction::SetDelay { x } => 0xF015 + (x as u16) * 0x100,
        Instruction::SetSound { x } => 0xF018 + (x as u16) * 0x100,
        Instruction::AddIndex { x } => 0xF01E + (x as u16) * 0x100,
        Instruction::Glyph { x } => 0xF029 + (x as u16) * 0x100,
        Instruction::Bcd { x } => 0xF033 + (x as u16) * 0x100,
        Instruction::Dump { x } => 0xF055 + (x as u16) * 0x100,
        Instruction::Load { x } => 0xF065 + (x as u16) * 0x100,
    };
    Some(opcode)
}

/// Whether the operands of `ins` fit their fields.
fn operands_fit(ins: Instruction) -> (fit: bool)
    ensures
        fit == ins.wf(),
{
    match ins {
        Instruction::ClearScreen | Instruction::Return => true,
        Instruction::Jump { addr }
        | Instruction::Call { addr }
        | Instruction::LoadIndex { addr }
        | Instruction::JumpOffset { addr } => addr < 0x1000,
        Instruction::SkipEqImm { x, nn: _ }
        | Instruction::SkipNeImm { x, nn: _ }
        | Instruction::LoadImm { x, nn: _ }
        | Instruction::AddImm { x, nn: _ }
        | Instruction::Random { x, nn: _ } => x < 16,
        Instruction::SkipEqReg { x, y }
        | Instruction::Move { x, y }
        | Instruction::Or { x, y }
        | Instruction::And { x, y }
        | Instruction::Xor { x, y }
        | Instruction::Add { x, y }
        | Instruction::Sub { x, y }
        | Instruction::ShiftRight { x, y }
        | Instruction::SubFrom { x, y }
        | Instruction::ShiftLeft { x, y }
        | Instruction::SkipNeReg { x, y } => x < 16 && y < 16,
        Instruction::Draw { x, y, n } => x < 16 && y < 16 && n < 16,
        Instruction::SkipKey { x }
        | Instruction::SkipNotKey { x }
        | Instruction::ReadDelay { x }
        | Instruction::WaitKey { x }
        | Instruction::SetDelay { x }
        | Instruction::SetSound { x }
        | Instruction::AddIndex { x }
        | Instruction::Glyph { x }
        | Instruction::Bcd { x }
        | Instruction::Dump { x }
        | Instruction::Load { x } => x < 16,
    }
}

/// The digits of an opcode put together from four digits are those
/// digits.
proof fn lemma_digits(family: int, x: int, y: int, n: int)
    requires
        0 <= family < 16,
        0 <= x < 16,
        0 <= y < 16,
        0 <= n < 16,
    ensures
        ({
            let opcode = (family * 0x1000 + x * 0x100 + y * 0x10 + n) as u16;
            &&& opcode == family * 0x1000 + x * 0x100 + y * 0x10 + n
            &&& op_family(opcode) == family
            &&& op_x(opcode) == x
            &&& op_y(opcode) == y
            &&& op_n(opcode) == n
            &&& op_nn(opcode) == y * 0x10 + n
            &&& op_nnn(opcode) == x * 0x100 + y * 0x10 + n
        }),
{
    let v = family * 0x1000 + x * 0x100 + y * 0x10 + n;
    lemma_fundamental_div_mod_converse(v, 0x1000, family, x * 0x100 + y * 0x10 + n);
    lemma_fundamental_div_mod_converse(v, 0x100, family * 0x10 + x, y * 0x10 + n);
    lemma_fundamental_div_mod_converse(family * 0x10 + x, 0x10, family, x);
    lemma_fundamental_div_mod_converse(v, 0x10, family * 0x100 + x * 0x10 + y, n);
    lemma_fundamental_div_mod_converse(family * 0x100 + x * 0x10 + y, 0x10, family * 0x10 + x, y);
}

/// An opcode is put together from its four digits.
proof fn lemma_opcode_digits(opcode: u16)
    ensures
        opcode == op_family(opcode) * 0x1000 + op_x(opcode) * 0x100 + op_y(opcode) * 0x10 + op_n(
            opcode,
        ),
        op_nn(opcode) == op_y(opcode) * 0x10 + op_n(opcode),
        op_nnn(opcode) == op_x(opcode) * 0x100 + op_y(opcode) * 0x10 + op_n(opcode),
        0 <= op_family(opcode) < 16,
        op_x(opcode) < 16,
        op_y(opcode) < 16,
        op_n(opcode) < 16,
        op_nnn(opcode) < 0x1000,
{
    let v = opcode as int;
    let family = v / 0x1000;
    let x = (v / 0x100) % 0x10;
    let y = (v / 0x10) % 0x10;
    let n = v % 0x10;
    assert(v == (v / 0x10) * 0x10 + n);
    assert(v / 0x10 == ((v / 0x10) / 0x10) * 0x10 + y);
    lemma_fundamental_div_mod_converse(v, 0x100, (v / 0x10) / 0x10, y * 0x10 + n);
    assert(v / 0x100 == ((v / 0x100) / 0x10) * 0x10 + x);
    lemma_fundamental_div_mod_converse(
        v,
        0x1000,
        (v / 0x100) / 0x10,
        x * 0x100 + y * 0x10 + n,
    );
    assert(v == family * 0x1000 + x * 0x100 + y * 0x10 + n);
    assert(v % 0x100 == y * 0x10 + n);
    assert(v % 0x1000 == x * 0x100 + y * 0x10 + n);
}

/// Every instruction whose operands fit is read back from its opcode.
pub proof fn lemma_decode_encoding(ins: Instruction)
    requires
        ins.wf(),
    ensures
        0 <= ins.encoding() <= 0xFFFF,
        decoded(ins.encoding() as u16) == Some(ins),
{
    match ins {
        Instruction::ClearScreen => {
            lemma_digits(0, 0, 14, 0);
        },
        Instruction::Return => {
            lemma_digits(0, 0, 14, 14);
        },
        Instruction::Jump { addr } => {
            lemma_digits(1, addr as int / 0x100, (addr as int / 0x10) % 0x10, addr as int % 0x10);
        },
        Instruction::Call { addr } => {
            lemma_digits(2, addr as int / 0x100, (addr as int / 0x10) % 0x10, addr as int % 0x10);
        },
        Instruction::SkipEqImm { x, nn } => {
            lemma_digits(3, x as int, nn as int / 0x10, nn as int % 0x10);
        },
        Instruction::SkipNeImm { x, nn } => {
            lemma_digits(4, x as int, nn as int / 0x10, nn as int % 0x10);
        },
        Instruction::SkipEqReg { x, y } => {
            lemma_digits(5, x as int, y as int, 0);
        },
        Instruction::LoadImm { x, nn } => {
            lemma_digits(6, x as int, nn as int / 0x10, nn as int % 0x10);
        },
        Instruction::AddImm { x, nn } => {
            lemma_digits(7, x as int, nn as int / 0x10, nn as int % 0x10);
        },
        Instruction::Move { x, y } => {
            lemma_digits(8, x as int, y as int, 0);
        },
        Instruction::Or { x, y } => {
            lemma_digits(8, x as int, y as int, 1);
        },
        Instruction::And { x, y } => {
            lemma_digits(8, x as int, y as int, 2);
        },
        Instruction::Xor { x, y } => {
            lemma_digits(8, x as int, y as int, 3);
        },
        Instruction::Add { x, y } => {
            lemma_digits(8, x as int, y as int, 4);
        },
        Instruction::Sub { x, y } => {
            lemma_digits(8, x as int, y as int, 5);
        },
        Instruction::ShiftRight { x, y } => {
            lemma_digits(8, x as int, y as int, 6);
        },
        Instruction::SubFrom { x, y } => {
            lemma_digits(8, x as int, y as int, 7);
        },
        Instruction::ShiftLeft { x, y } => {
            lemma_digits(8, x as int, y as int, 14);
        },
        Instruction::SkipNeReg { x, y } => {
            lemma_digits(9, x as int, y as int, 0);
        },
        Instruction::LoadIndex { addr } => {
            lemma_digits(10, addr as int / 0x100, (addr as int / 0x10) % 0x10, addr as int % 0x10);
        },
        Instruction::JumpOffset { addr } => {
            lemma_digits(11, addr as int / 0x100, (addr as int / 0x10) % 0x10, addr as int % 0x10);
        },
        Instruction::Random { x, nn } => {
            lemma_digits(12, x as int, nn as int / 0x10, nn as int % 0x10);
        },
        Instruction::Draw { x, y, n } => {
            lemma_digits(13, x as int, y as int, n as int);
        },
        Instruction::SkipKey { x } => {
            lemma_digits(14, x as int, 9, 14);
        },
        Instruction::SkipNotKey { x } => {
            lemma_digits(14, x as int, 10, 1);
        },
        Instruction::ReadDelay { x } => {
            lemma_digits(15, x as int, 0, 7);
        },
        Instruction::WaitKey { x } => {
            lemma_digits(15, x as int, 0, 10);
        },
        Instruction::SetDelay { x } => {
            lemma_digits(15, x as int, 1, 5);
        },
        Instruction::SetSound { x } => {
            lemma_digits(15, x as int, 1, 8);
        },
        Instruction::AddIndex { x } => {
            lemma_digits(15, x as int, 1, 14);
        },
        Instruction::Glyph { x } => {
            lemma_digits(15, x as int, 2, 9);
        },
        Instruction::Bcd { x } => {
            lemma_digits(15, x as int, 3, 3);
        },
        Instruction::Dump { x } => {
            lemma_digits(15, x as int, 5, 5);
        },
        Instruction::Load { x } => {
            lemma_digits(15, x as int, 6, 5);
        },
    }
}

/// What an opcode is read as stands for that opcode, and its operands
/// fit: no two instructions share an opcode, and decoding invents none.
pub proof fn lemma_encoding_decoded(opcode: u16)
    ensures
        decoded(opcode) matches Some(ins) ==> ins.wf() && ins.encoding() == opcode,
{
    lemma_opcode_digits(opcode);
}

} // verus!
