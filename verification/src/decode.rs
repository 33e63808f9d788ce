//! Instruction words and what they decode to.
//!
//! An instruction is a 16-bit word. Its top four bits select a group; the
//! operands are sub-fields of the word: `x` (bits 8 to 11) and `y` (bits 4
//! to 7) name registers, and the low 4, 8 or 12 bits give an immediate.

use vstd::prelude::*;

verus! {

/// The group selector: the top four bits of the word.
pub open spec fn op_group(opcode: u16) -> int {
    opcode as int / 4096
}

/// The register operand `x`: bits 8 to 11.
pub open spec fn op_x(opcode: u16) -> u8 {
    ((opcode as int / 256) % 16) as u8
}

/// The register operand `y`: bits 4 to 7.
pub open spec fn op_y(opcode: u16) -> u8 {
    ((opcode as int / 16) % 16) as u8
}

/// The low four bits.
pub open spec fn op_n(opcode: u16) -> u8 {
    (opcode as int % 16) as u8
}

/// The low eight bits.
pub open spec fn op_nn(opcode: u16) -> u8 {
    (opcode as int % 256) as u8
}

/// The low twelve bits.
pub open spec fn op_nnn(opcode: u16) -> u16 {
    (opcode as int % 4096) as u16
}

/// One decoded instruction.
#[derive(Clone, Copy, Debug, PartialEq, Eq, Structural)]
pub enum Instruction {
    /// `0nnn` other than the two below: a call into native code, which this
    /// machine passes over.
    MachineRoutine { address: u16 },
    /// `00E0`: blank the display.
    ClearScreen,
    /// `00EE`: return from a subroutine.
    Return,
    /// `1nnn`: continue at `address`.
    Jump { address: u16 },
    /// `2nnn`: call the subroutine at `address`.
    Call { address: u16 },
    /// `3xnn`: skip the next instruction if `Vx == value`.
    SkipIfEqual { x: u8, value: u8 },
    /// `4xnn`: skip the next instruction if `Vx != value`.
    SkipIfNotEqual { x: u8, value: u8 },
    /// `5xy_`: skip the next instruction if `Vx == Vy`.
    SkipIfRegistersEqual { x: u8, y: u8 },
    /// `6xnn`: `Vx = value`.
    LoadImmediate { x: u8, value: u8 },
    /// `7xnn`: `Vx = Vx + value`, wrapping, flag untouched.
    AddImmediate { x: u8, value: u8 },
    /// `8xy0`: `Vx = Vy`.
    Assign { x: u8, y: u8 },
    /// `8xy1`: `Vx = Vx | Vy`.
    Or { x: u8, y: u8 },
    /// `8xy2`: `Vx = Vx & Vy`.
    And { x: u8, y: u8 },
    /// `8xy3`: `Vx = Vx ^ Vy`.
    Xor { x: u8, y: u8 },
    /// `8xy4`: `Vx = Vx + Vy`, wrapping; `VF` is the carry.
    AddCarry { x: u8, y: u8 },
    /// `8xy5`: `Vx = Vx - Vy`, wrapping; `VF` is 0 on a borrow, else 1.
    Subtract { x: u8, y: u8 },
    /// `8xy6`: `VF` takes the lowest bit of `Vx`, then `Vx` is halved.
    ShiftRight { x: u8, y: u8 },
    /// `8xy7`: `Vx = Vy - Vx`, wrapping; `VF` is 0 on a borrow, else 1.
    ReverseSubtract { x: u8, y: u8 },
    /// `8xyE`: `VF` takes the highest bit of `Vx`, then `Vx` is doubled,
    /// wrapping.
    ShiftLeft { x: u8, y: u8 },
    /// `9xy_`: skip the next instruction if `Vx != Vy`.
    SkipIfRegistersNotEqual { x: u8, y: u8 },
    /// `Annn`: `I = address`.
    SetIndex { address: u16 },
    /// `Bnnn`: continue at `address + V0`.
    JumpOffset { address: u16 },
    /// `Cxnn`: `Vx` = a random byte masked with `mask`.
    Random { x: u8, mask: u8 },
    /// `Dxyn`: draw the sprite of `rows` rows at `I` at column `Vx`, row `Vy`.
    Draw { x: u8, y: u8, rows: u8 },
    /// `Ex9E`: skip the next instruction if the key numbered `Vx` is down.
    SkipIfKey { x: u8 },
    /// `ExA1`: skip the next instruction if the key numbered `Vx` is up.
    SkipIfNotKey { x: u8 },
    /// `Fx07`: `Vx = delay timer`.
    GetDelay { x: u8 },
    /// `Fx0A`: wait for a key press and store the key in `Vx`.
    WaitKey { x: u8 },
    /// `Fx15`: `delay timer = Vx`.
    SetDelay { x: u8 },
    /// `Fx18`: `sound timer = Vx`.
    SetSound { x: u8 },
    /// `Fx1E`: `I = I + Vx`, wrapping at 16 bits; `VF` is the carry.
    AddIndex { x: u8 },
    /// `Fx29`: `I` = address of the glyph for the digit in `Vx`.
    FontAddress { x: u8 },
    /// `Fx33`: store the three decimal digits of `Vx` at `I`, `I+1`, `I+2`.
    StoreBcd { x: u8 },
    /// `Fx55`: store `V0` to `Vx` at `I` on, then `I = I + x + 1`.
    DumpRegisters { x: u8 },
    /// `Fx65`: fill `V0` to `Vx` from `I` on, then `I = I + x + 1`.
    LoadRegisters { x: u8 },
}

impl Instruction {
    /// Register operands name one of sixteen registers, addresses have
    /// twelve bits and a sprite has at most fifteen rows.
    pub open spec fn wf(self) -> bool {
        match self {
            Instruction::MachineRoutine { address } => address < 4096,
            Instruction::ClearScreen => true,
            Instruction::Return => true,
            Instruction::Jump { address } => address < 4096,
            Instruction::Call { address } => address < 4096,
            Instruction::SkipIfEqual { x, value } => x < 16,
            Instruction::SkipIfNotEqual { x, value } => x < 16,
            Instruction::SkipIfRegistersEqual { x, y } => x < 16 && y < 16,
            Instruction::LoadImmediate { x, value } => x < 16,
            Instruction::AddImmediate { x, value } => x < 16,
            Instruction::Assign { x, y } => x < 16 && y < 16,
            Instruction::Or { x, y } => x < 16 && y < 16,
            Instruction::And { x, y } => x < 16 && y < 16,
            Instruction::Xor { x, y } => x < 16 && y < 16,
            Instruction::AddCarry { x, y } => x < 16 && y < 16,
            Instruction::Subtract { x, y } => x < 16 && y < 16,
            Instruction::ShiftRight { x, y } => x < 16 && y < 16,
            Instruction::ReverseSubtract { x, y } => x < 16 && y < 16,
            Instruction::ShiftLeft { x, y } => x < 16 && y < 16,
            Instruction::SkipIfRegistersNotEqual { x, y } => x < 16 && y < 16,
            Instruction::SetIndex { address } => address < 4096,
            Instruction::JumpOffset { address } => address < 4096,
            Instruction::Random { x, mask } => x < 16,
            Instruction::Draw { x, y, rows } => x < 16 && y < 16 && rows < 16,
            Instruction::SkipIfKey { x } => x < 16,
            Instruction::SkipIfNotKey { x } => x < 16,
            Instruction::GetDelay { x } => x < 16,
            Instruction::WaitKey { x } => x < 16,
            Instruction::SetDelay { x } => x < 16,
            Instruction::SetSound { x } => x < 16,
            Instruction::AddIndex { x } => x < 16,
            Instruction::FontAddress { x } => x < 16,
            Instruction::StoreBcd { x } => x < 16,
            Instruction::DumpRegisters { x } => x < 16,
            Instruction::LoadRegisters { x } => x < 16,
        }
    }
}

impl Instruction {
    /// The instructions that only steer the machine: jumps, calls, skips
    /// and the wait for a key.
    pub open spec fn is_control(self) -> bool {
        ||| self is MachineRoutine
        ||| self is Return
        ||| self is Jump
        ||| self is Call
        ||| self is SkipIfEqual
        ||| self is SkipIfNotEqual
        ||| self is SkipIfRegistersEqual
        ||| self is SkipIfRegistersNotEqual
        ||| self is JumpOffset
        ||| self is SkipIfKey
        ||| self is SkipIfNotKey
        ||| self is WaitKey
    }

    /// The instructions that compute a register from registers, an
    /// immediate or the random byte.
    pub open spec fn is_arithmetic(self) -> bool {
        ||| self is LoadImmediate
        ||| self is AddImmediate
        ||| self is Assign
        ||| self is Or
        ||| self is And
        ||| self is Xor
        ||| self is AddCarry
        ||| self is Subtract
        ||| self is ShiftRight
        ||| self is ReverseSubtract
        ||| self is ShiftLeft
        ||| self is Random
    }
}

/// The register-to-register group `8xy_`, selected by the low four bits.
pub open spec fn decode_alu(x: u8, y: u8, n: u8) -> Option<Instruction> {
    if n == 0x0 {
        Some(Instruction::Assign { x, y })
    } else if n == 0x1 {
        Some(Instruction::Or { x, y })
    } else if n == 0x2 {
        Some(Instruction::And { x, y })
    } else if n == 0x3 {
        Some(Instruction::Xor { x, y })
    } else if n == 0x4 {
        Some(Instruction::AddCarry { x, y })
    } else if n == 0x5 {
        Some(Instruction::Subtract { x, y })
    } else if n == 0x6 {
        Some(Instruction::ShiftRight { x, y })
    } else if n == 0x7 {
        Some(Instruction::ReverseSubtract { x, y })
    } else if n == 0xE {
        Some(Instruction::ShiftLeft { x, y })
    } else {
        None
    }
}

/// The key group `Ex__`, selected by the low eight bits.
pub open spec fn decode_key(x: u8, nn: u8) -> Option<Instruction> {
    if nn == 0x9E {
        Some(Instruction::SkipIfKey { x })
    } else if nn == 0xA1 {
        Some(Instruction::SkipIfNotKey { x })
    } else {
        None
    }
}

/// The timer, index and memory group `Fx__`, selected by the low eight bits.
pub open spec fn decode_misc(x: u8, nn: u8) -> Option<Instruction> {
    if nn == 0x07 {
        Some(Instruction::GetDelay { x })
    } else if nn == 0x0A {
        Some(Instruction::WaitKey { x })
    } else if nn == 0x15 {
        Some(Instruction::SetDelay { x })
    } else if nn == 0x18 {
        Some(Instruction::SetSound { x })
    } else if nn == 0x1E {
        Some(Instruction::AddIndex { x })
    } else if nn == 0x29 {
        Some(Instruction::FontAddress { x })
    } else if nn == 0x33 {
        Some(Instruction::StoreBcd { x })
    } else if nn == 0x55 {
        Some(Instruction::DumpRegisters { x })
    } else if nn == 0x65 {
        Some(Instruction::LoadRegisters { x })
    } else {
        None
    }
}

/// The instruction that `opcode` stands for, or `None` where the word
/// matches none: an unassigned selector in group 8, E or F.
pub open spec fn decode_spec(opcode: u16) -> Option<Instruction> {
    let group = op_group(opcode);
    let x = op_x(opcode);
    let y = op_y(opcode);
    let n = op_n(opcode);
    let nn = op_nn(opcode);
    let nnn = op_nnn(opcode);
    if group == 0x0 {
        if opcode == 0x00E0 {
            Some(Instruction::ClearScreen)
        } else if opcode == 0x00EE {
            Some(Instruction::Return)
        } else {
            Some(Instruction::MachineRoutine { address: nnn })
        }
    } else if group == 0x1 {
        Some(Instruction::Jump { address: nnn })
    } else if group == 0x2 {
        Some(Instruction::Call { address: nnn })
    } else if group == 0x3 {
        Some(Instruction::SkipIfEqual { x, value: nn })
    } else if group == 0x4 {
        Some(Instruction::SkipIfNotEqual { x, value: nn })
    } else if group == 0x5 {
        Some(Instruction::SkipIfRegistersEqual { x, y })
    } else if group == 0x6 {
        Some(Instruction::LoadImmediate { x, value: nn })
    } else if group == 0x7 {
        Some(Instruction::AddImmediate { x, value: nn })
    } else if group == 0x8 {
        decode_alu(x, y, n)
    } else if group == 0x9 {
        Some(Instruction::SkipIfRegistersNotEqual { x, y })
    } else if group == 0xA {
        Some(Instruction::SetIndex { address: nnn })
    } else if group == 0xB {
        Some(Instruction::JumpOffset { address: nnn })
    } else if group == 0xC {
        Some(Instruction::Random { x, mask: nn })
    } else if group == 0xD {
        Some(Instruction::Draw { x, y, rows: n })
    } else if group == 0xE {
        decode_key(x, nn)
    } else {
        decode_misc(x, nn)
    }
}

/// The operand fields of `opcode`, as `(group, x, y, n, nn, nnn)`.
fn fields(opcode: u16) -> (f: (u8, u8, u8, u8, u8, u16))
    ensures
        f.0 == op_group(opcode),
        f.1 == op_x(opcode),
        f.2 == op_y(opcode),
        f.3 == op_n(opcode),
        f.4 == op_nn(opcode),
        f.5 == op_nnn(opcode),
        f.0 < 16 && f.1 < 16 && f.2 < 16 && f.3 < 16 && f.5 < 4096,
{
    let group: u8 = (opcode >> 12) as u8;
    let x: u8 = ((opcode & 0x0F00) >> 8) as u8;
    let y: u8 = ((opcode & 0x00F0) >> 4) as u8;
    let n: u8 = (opcode & 0x000F) as u8;
    let nn: u8 = (opcode & 0x00FF) as u8;
    let nnn: u16 = opcode & 0x0FFF;
    assert(opcode >> 12 == opcode / 4096 && (opcode >> 12) < 16) by (bit_vector);
    assert((opcode & 0x0F00) >> 8 == (opcode / 256) % 16 && ((opcode & 0x0F00) >> 8) < 16)
        by (bit_vector);
    assert((opcode & 0x00F0) >> 4 == (opcode / 16) % 16 && ((opcode & 0x00F0) >> 4) < 16)
        by (bit_vector);
    assert(opcode & 0x000F == opcode % 16 && (opcode & 0x000F) < 16) by (bit_vector);
    assert(opcode & 0x00FF == opcode % 256 && (opcode & 0x00FF) < 256) by (bit_vector);
    assert(opcode & 0x0FFF == opcode % 4096 && (opcode & 0x0FFF) < 4096) by (bit_vector);
    (group, x, y, n, nn, nnn)
}

/// Decodes one instruction word.
pub fn decode(opcode: u16) -> (res: Option<Instruction>)
    ensures
        res == decode_spec(opcode),
        res matches Some(instruction) ==> instruction.wf(),
{
    let (group, x, y, n, nn, nnn) = fields(opcode);
    match group {
        0x0 => {
            if opcode == 0x00E0 {
                Some(Instruction::ClearScreen)
            } else if opcode == 0x00EE {
                Some(Instruction::Return)
            } else {
                Some(Instruction::MachineRoutine { address: nnn })
            }
        },
        0x1 => Some(Instruction::Jump { address: nnn }),
        0x2 => Some(Instruction::Call { address: nnn }),
        0x3 => Some(Instruction::SkipIfEqual { x, value: nn }),
        0x4 => Some(Instruction::SkipIfNotEqual { x, value: nn }),
        0x5 => Some(Instruction::SkipIfRegistersEqual { x, y }),
        0x6 => Some(Instruction::LoadImmediate { x, value: nn }),
        0x7 => Some(Instruction::AddImmediate { x, value: nn }),
        0x8 => match n {
            0x0 => Some(Instruction::Assign { x, y }),
            0x1 => Some(Instruction::Or { x, y }),
            0x2 => Some(Instruction::And { x, y }),
            0x3 => Some(Instruction::Xor { x, y }),
            0x4 => Some(Instruction::AddCarry { x, y }),
            0x5 => Some(Instruction::Subtract { x, y }),
            0x6 => Some(Instruction::ShiftRight { x, y }),
            0x7 => Some(Instruction::ReverseSubtract { x, y }),
            0xE => Some(Instruction::ShiftLeft { x, y }),
            _ => None,
        },
        0x9 => Some(Instruction::SkipIfRegistersNotEqual { x, y }),
        0xA => Some(Instruction::SetIndex { address: nnn }),
        0xB => Some(Instruction::JumpOffset { address: nnn }),
        0xC => Some(Instruction::Random { x, mask: nn }),
        0xD => Some(Instruction::Draw { x, y, rows: n }),
        0xE => match nn {
            0x9E => Some(Instruction::SkipIfKey { x }),
            0xA1 => Some(Instruction::SkipIfNotKey { x }),
            _ => None,
        },
        _ => match nn {
            0x07 => Some(Instruction::GetDelay { x }),
            0x0A => Some(Instruction::WaitKey { x }),
            0x15 => Some(Instruction::SetDelay { x }),
            0x18 => Some(Instruction::SetSound { x }),
            0x1E => Some(Instruction::AddIndex { x }),
            0x29 => Some(Instruction::FontAddress { x }),
            0x33 => Some(Instruction::StoreBcd { x }),
            0x55 => Some(Instruction::DumpRegisters { x }),
            0x65 => Some(Instruction::LoadRegisters { x }),
            _ => None,
        },
    }
}

} // verus!
