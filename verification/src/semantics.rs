//! What each instruction does to a machine state, and what one cycle does.

use vstd::prelude::*;
use crate::decode::{decode_spec, Instruction};
use crate::display::{collides, drawn, visible_rows};
use crate::fault::Fault;
use crate::model::MachineState;

verus! {

/// The sum of two bytes, wrapped to a byte.
pub open spec fn wrapped_sum(a: u8, b: u8) -> u8 {
    ((a + b) % 256) as u8
}

/// 1 if the sum of two bytes does not fit in a byte, else 0.
pub open spec fn carry(a: u8, b: u8) -> u8 {
    if a + b > 255 { 1 } else { 0 }
}

/// The difference `a - b`, wrapped to a byte.
pub open spec fn wrapped_difference(a: u8, b: u8) -> u8 {
    ((a - b) % 256) as u8
}

/// 0 if `a - b` borrows, else 1.
pub open spec fn no_borrow(a: u8, b: u8) -> u8 {
    if a < b { 0 } else { 1 }
}

/// The instruction word at `address`: two bytes, the high one first.
pub open spec fn word_at(memory: Seq<u8>, address: int) -> u16 {
    (memory[address] as int * 256 + memory[address + 1] as int) as u16
}

/// The word the program counter points at; a fault where it does not fit in
/// memory.
pub open spec fn fetch_spec(s: MachineState) -> Result<u16, Fault> {
    if s.pc > 4094 {
        Err(Fault::FetchOutOfRange { pc: s.pc })
    } else {
        Ok(word_at(s.memory, s.pc as int))
    }
}

/// The three decimal digits of `value`, hundreds first.
pub open spec fn decimal_digits(value: u8) -> Seq<u8> {
    seq![value / 100, (value / 10) % 10, value % 10]
}

/// Memory with the bytes of `data` written from `start` on.
pub open spec fn memory_with(memory: Seq<u8>, start: int, data: Seq<u8>) -> Seq<u8> {
    Seq::new(
        memory.len(),
        |a: int| if start <= a < start + data.len() { data[a - start] } else { memory[a] },
    )
}

/// The registers with the first `count` of them filled from memory at
/// `start` on.
pub open spec fn registers_from(
    registers: Seq<u8>,
    memory: Seq<u8>,
    start: int,
    count: int,
) -> Seq<u8> {
    Seq::new(registers.len(), |r: int| if r < count { memory[start + r] } else { registers[r] })
}

impl MachineState {
    /// The value of register `x`.
    pub open spec fn reg(self, x: u8) -> u8 {
        self.registers[x as int]
    }

    /// The state with the program counter moved on by `by`.
    pub open spec fn advanced(self, by: int) -> MachineState {
        MachineState { pc: (self.pc + by) as u16, ..self }
    }

    /// The state with the next instruction skipped if `skip` holds.
    pub open spec fn skipping(self, skip: bool) -> MachineState {
        self.advanced(if skip { 4 } else { 2 })
    }

    /// The state with `value` in register `x`.
    pub open spec fn with_register(self, x: u8, value: u8) -> MachineState {
        MachineState { registers: self.registers.update(x as int, value), ..self }
    }

    /// The state with `value` in register `x`, then `flag` in `VF`.
    pub open spec fn with_result(self, x: u8, value: u8, flag: u8) -> MachineState {
        self.with_register(x, value).with_register(15, flag)
    }

    /// `Vx = Vx + Vy`, then `VF` = carry.
    pub open spec fn add_carry(self, x: u8, y: u8) -> MachineState {
        self.with_result(
            x,
            wrapped_sum(self.reg(x), self.reg(y)),
            carry(self.reg(x), self.reg(y)),
        )
    }

    /// `Vx = Vx - Vy`, then `VF` = 0 on a borrow, else 1.
    pub open spec fn subtract(self, x: u8, y: u8) -> MachineState {
        self.with_result(
            x,
            wrapped_difference(self.reg(x), self.reg(y)),
            no_borrow(self.reg(x), self.reg(y)),
        )
    }

    /// `Vx = Vy - Vx`, then `VF` = 0 on a borrow, else 1.
    pub open spec fn reverse_subtract(self, x: u8, y: u8) -> MachineState {
        self.with_result(
            x,
            wrapped_difference(self.reg(y), self.reg(x)),
            no_borrow(self.reg(y), self.reg(x)),
        )
    }

    /// `VF` = lowest bit of `Vx`, then `Vx` halved. The bit is taken before
    /// the shift; with `x = F` the shift then works on the flag just written.
    pub open spec fn shift_right(self, x: u8) -> MachineState {
        let flagged = self.with_register(15, self.reg(x) % 2);
        flagged.with_register(x, flagged.reg(x) / 2)
    }

    /// `VF` = highest bit of `Vx`, then `Vx` doubled and wrapped. The bit is
    /// taken before the shift; with `x = F` the shift then works on the flag
    /// just written.
    pub open spec fn shift_left(self, x: u8) -> MachineState {
        let flagged = self.with_register(15, self.reg(x) / 128);
        flagged.with_register(x, ((flagged.reg(x) * 2) % 256) as u8)
    }

    /// `I = I + Vx` wrapped at sixteen bits, then `VF` = carry.
    pub open spec fn add_index(self, x: u8) -> MachineState {
        let sum = self.index + self.reg(x);
        MachineState { index: (sum % 65536) as u16, ..self }.with_register(
            15,
            if sum > 65535 { 1 } else { 0 },
        )
    }

    /// The subroutine call: the current program counter goes on the stack.
    pub open spec fn call(self, address: u16) -> Result<MachineState, Fault> {
        if self.stack_pointer >= 16 {
            Err(Fault::StackOverflow { pc: self.pc })
        } else {
            Ok(
                MachineState {
                    stack: self.stack.update(self.stack_pointer as int, self.pc),
                    stack_pointer: (self.stack_pointer + 1) as u8,
                    pc: address,
                    ..self
                },
            )
        }
    }

    /// The return: execution resumes behind the call whose address is on top
    /// of the stack.
    pub open spec fn ret(self) -> Result<MachineState, Fault> {
        if self.stack_pointer == 0 {
            Err(Fault::StackUnderflow { pc: self.pc })
        } else {
            Ok(
                MachineState {
                    stack_pointer: (self.stack_pointer - 1) as u8,
                    pc: (self.stack[self.stack_pointer - 1] + 2) as u16,
                    ..self
                },
            )
        }
    }

    /// The skip on the state of the key numbered `Vx`: taken if the key is
    /// down and `wanted`, or up and not `wanted`.
    pub open spec fn skip_on_key(self, x: u8, wanted: bool) -> Result<MachineState, Fault> {
        let key = self.reg(x);
        if key >= 16 {
            Err(Fault::KeyOutOfRange { pc: self.pc, key })
        } else {
            Ok(self.skipping(self.keys[key as int] == wanted))
        }
    }

    /// The decimal digits of `Vx` stored at `I`, `I + 1` and `I + 2`.
    pub open spec fn store_bcd(self, x: u8) -> Result<MachineState, Fault> {
        if self.index + 2 > 4095 {
            Err(Fault::AccessOutOfRange { pc: self.pc, index: self.index })
        } else {
            Ok(
                MachineState {
                    memory: memory_with(
                        self.memory,
                        self.index as int,
                        decimal_digits(self.reg(x)),
                    ),
                    ..self
                }.advanced(2),
            )
        }
    }

    /// `V0` to `Vx` stored at `I` on, and `I` moved behind them.
    pub open spec fn dump_registers(self, x: u8) -> Result<MachineState, Fault> {
        if self.index + x > 4095 {
            Err(Fault::AccessOutOfRange { pc: self.pc, index: self.index })
        } else {
            Ok(
                MachineState {
                    memory: memory_with(
                        self.memory,
                        self.index as int,
                        self.registers.subrange(0, x + 1),
                    ),
                    index: (self.index + x + 1) as u16,
                    ..self
                }.advanced(2),
            )
        }
    }

    /// `V0` to `Vx` filled from `I` on, and `I` moved behind what was read.
    pub open spec fn load_registers(self, x: u8) -> Result<MachineState, Fault> {
        if self.index + x > 4095 {
            Err(Fault::AccessOutOfRange { pc: self.pc, index: self.index })
        } else {
            Ok(
                MachineState {
                    registers: registers_from(
                        self.registers,
                        self.memory,
                        self.index as int,
                        x + 1,
                    ),
                    index: (self.index + x + 1) as u16,
                    ..self
                }.advanced(2),
            )
        }
    }

    /// The sprite of `rows` rows at `I` drawn at column `Vx mod 64`, row
    /// `Vy mod 32`; `VF` = 1 if that turned a lit pixel off, else 0. A fault
    /// if a row that falls on the display lies past the end of memory.
    pub open spec fn draw(self, x: u8, y: u8, rows: u8) -> Result<MachineState, Fault> {
        let x0 = self.reg(x) % 64;
        let y0 = self.reg(y) % 32;
        if rows > 0 && self.index + visible_rows(y0 as int, rows as int) > 4096 {
            Err(Fault::AccessOutOfRange { pc: self.pc, index: self.index })
        } else {
            Ok(
                MachineState {
                    framebuffer: drawn(self, x0 as int, y0 as int, rows as int),
                    redraw: true,
                    ..self
                }.with_register(
                    15,
                    if collides(self, x0 as int, y0 as int, rows as int) { 1 } else { 0 },
                ).advanced(2),
            )
        }
    }

    /// The state with a blank display and a redraw requested.
    pub open spec fn cleared(self) -> MachineState {
        MachineState { framebuffer: Seq::new(2048, |p: int| false), redraw: true, ..self }
    }
}

/// What `instruction` makes of state `s`, where `random` is the byte drawn
/// for it. Only `Random` reads `random`.
pub open spec fn execute_spec(s: MachineState, instruction: Instruction, random: u8) -> Result<
    MachineState,
    Fault,
> {
    match instruction {
        Instruction::MachineRoutine { address } => Ok(s.advanced(2)),
        Instruction::ClearScreen => Ok(s.cleared().advanced(2)),
        Instruction::Return => s.ret(),
        Instruction::Jump { address } => Ok(MachineState { pc: address, ..s }),
        Instruction::Call { address } => s.call(address),
        Instruction::SkipIfEqual { x, value } => Ok(s.skipping(s.reg(x) == value)),
        Instruction::SkipIfNotEqual { x, value } => Ok(s.skipping(s.reg(x) != value)),
        Instruction::SkipIfRegistersEqual { x, y } => Ok(s.skipping(s.reg(x) == s.reg(y))),
        Instruction::LoadImmediate { x, value } => Ok(s.with_register(x, value).advanced(2)),
        Instruction::AddImmediate { x, value } => Ok(
            s.with_register(x, wrapped_sum(s.reg(x), value)).advanced(2),
        ),
        Instruction::Assign { x, y } => Ok(s.with_register(x, s.reg(y)).advanced(2)),
        Instruction::Or { x, y } => Ok(s.with_register(x, s.reg(x) | s.reg(y)).advanced(2)),
        Instruction::And { x, y } => Ok(s.with_register(x, s.reg(x) & s.reg(y)).advanced(2)),
        Instruction::Xor { x, y } => Ok(s.with_register(x, s.reg(x) ^ s.reg(y)).advanced(2)),
        Instruction::AddCarry { x, y } => Ok(s.add_carry(x, y).advanced(2)),
        Instruction::Subtract { x, y } => Ok(s.subtract(x, y).advanced(2)),
        Instruction::ShiftRight { x, y } => Ok(s.shift_right(x).advanced(2)),
        Instruction::ReverseSubtract { x, y } => Ok(s.reverse_subtract(x, y).advanced(2)),
        Instruction::ShiftLeft { x, y } => Ok(s.shift_left(x).advanced(2)),
        Instruction::SkipIfRegistersNotEqual { x, y } => Ok(s.skipping(s.reg(x) != s.reg(y))),
        Instruction::SetIndex { address } => Ok(MachineState { index: address, ..s }.advanced(2)),
        Instruction::JumpOffset { address } => Ok(
            MachineState { pc: (address + s.reg(0)) as u16, ..s },
        ),
        Instruction::Random { x, mask } => Ok(s.with_register(x, random & mask).advanced(2)),
        Instruction::Draw { x, y, rows } => s.draw(x, y, rows),
        Instruction::SkipIfKey { x } => s.skip_on_key(x, true),
        Instruction::SkipIfNotKey { x } => s.skip_on_key(x, false),
        Instruction::GetDelay { x } => Ok(s.with_register(x, s.delay_timer).advanced(2)),
        Instruction::WaitKey { x } => Ok(
            MachineState { awaiting_key: true, key_target: x, ..s }.advanced(2),
        ),
        Instruction::SetDelay { x } => Ok(MachineState { delay_timer: s.reg(x), ..s }.advanced(2)),
        Instruction::SetSound { x } => Ok(MachineState { sound_timer: s.reg(x), ..s }.advanced(2)),
        Instruction::AddIndex { x } => Ok(s.add_index(x).advanced(2)),
        Instruction::FontAddress { x } => Ok(
            MachineState { index: (s.reg(x) * 5) as u16, ..s }.advanced(2),
        ),
        Instruction::StoreBcd { x } => s.store_bcd(x),
        Instruction::DumpRegisters { x } => s.dump_registers(x),
        Instruction::LoadRegisters { x } => s.load_registers(x),
    }
}

/// The instruction word `opcode`, found at the program counter, carried out.
pub open spec fn run_spec(s: MachineState, opcode: u16, random: u8) -> Result<
    MachineState,
    Fault,
> {
    match decode_spec(opcode) {
        Some(instruction) => execute_spec(s, instruction, random),
        None => Err(Fault::UnknownOpcode { opcode, pc: s.pc }),
    }
}

/// One cycle: nothing while the machine waits for a key; otherwise the
/// instruction at the program counter is fetched, decoded and carried out.
pub open spec fn step_spec(s: MachineState, random: u8) -> Result<MachineState, Fault> {
    if s.awaiting_key {
        Ok(s)
    } else {
        match fetch_spec(s) {
            Ok(opcode) => run_spec(s, opcode, random),
            Err(fault) => Err(fault),
        }
    }
}

/// Whether the next cycle consumes a random byte: the machine is running
/// and the word at the program counter is a random instruction.
pub open spec fn draws_random(s: MachineState) -> bool {
    &&& !s.awaiting_key
    &&& fetch_spec(s) matches Ok(opcode)
    &&& decode_spec(opcode) matches Some(Instruction::Random { x, mask })
}

} // verus!
