//! The fetch-decode-execute cycle.

use vstd::prelude::*;
use crate::decode::{decode, Instruction};
use crate::fault::Fault;
use crate::machine::Machine;
use crate::display::{
    collides, collides_upto, drawn, drawn_upto, erases, flips, reached, visible_rows,
};
use crate::model::{agrees, MachineState};
use crate::random::random_byte;
use crate::semantics::{
    decimal_digits, draws_random, execute_spec, fetch_spec, memory_with, no_borrow,
    registers_from, step_spec, wrapped_difference,
};

verus! {

/// Before any sprite pixel is drawn the framebuffer is as it was, and
/// nothing has been turned off.
proof fn lemma_draw_start(s: MachineState, x0: int, y0: int, rows: int)
    requires
        s.wf(),
        0 <= x0 < 64,
        0 <= y0 < 32,
    ensures
        drawn_upto(s, x0, y0, rows, 0, 0) == s.framebuffer,
        !collides_upto(s, x0, y0, rows, 0, 0),
{
    assert forall|p: int| 0 <= p < 2048 implies !(flips(s, x0, y0, rows, p) && reached(
        x0,
        y0,
        0,
        0,
        p,
    )) by {}
    assert(drawn_upto(s, x0, y0, rows, 0, 0) =~= s.framebuffer);
}

/// Drawing one more sprite pixel adds that pixel, and no other, to those
/// that may have been turned off.
proof fn lemma_collides_step(s: MachineState, x0: int, y0: int, rows: int, row: int, col: int)
    requires
        s.wf(),
        0 <= x0 < 64,
        0 <= y0 < 32,
        0 <= row,
        y0 + row < 32,
        0 <= col < 8,
        x0 + col < 64,
    ensures
        collides_upto(s, x0, y0, rows, row, col + 1) == (collides_upto(s, x0, y0, rows, row, col)
            || erases(s, x0, y0, rows, (y0 + row) * 64 + x0 + col)),
{
    let at = (y0 + row) * 64 + x0 + col;
    assert(at / 64 == y0 + row && at % 64 == x0 + col);
    if collides_upto(s, x0, y0, rows, row, col + 1) {
        let p = choose|p: int| #[trigger]
            erases(s, x0, y0, rows, p) && reached(x0, y0, row, col + 1, p);
        if p != at {
            assert(reached(x0, y0, row, col, p));
        }
    }
    if collides_upto(s, x0, y0, rows, row, col) {
        let p = choose|p: int| #[trigger]
            erases(s, x0, y0, rows, p) && reached(x0, y0, row, col, p);
        assert(reached(x0, y0, row, col + 1, p));
    }
    if erases(s, x0, y0, rows, at) {
        assert(reached(x0, y0, row, col + 1, at));
    }
}

/// Once a sprite row is drawn up to the right edge of the sprite or of the
/// display, the sprite is drawn as far as the start of the next row.
proof fn lemma_row_done(s: MachineState, x0: int, y0: int, rows: int, row: int, col: int)
    requires
        s.wf(),
        0 <= x0 < 64,
        0 <= y0 < 32,
        0 <= row,
        0 <= col <= 8,
        col == 8 || x0 + col == 64,
    ensures
        drawn_upto(s, x0, y0, rows, row, col) == drawn_upto(s, x0, y0, rows, row + 1, 0),
        collides_upto(s, x0, y0, rows, row, col) == collides_upto(s, x0, y0, rows, row + 1, 0),
{
    assert forall|p: int| 0 <= p < 2048 && flips(s, x0, y0, rows, p) implies reached(
        x0,
        y0,
        row,
        col,
        p,
    ) == reached(x0, y0, row + 1, 0, p) by {}
    assert(drawn_upto(s, x0, y0, rows, row, col) =~= drawn_upto(s, x0, y0, rows, row + 1, 0));
    if collides_upto(s, x0, y0, rows, row, col) {
        let p = choose|p: int| #[trigger]
            erases(s, x0, y0, rows, p) && reached(x0, y0, row, col, p);
        assert(reached(x0, y0, row + 1, 0, p));
    }
    if collides_upto(s, x0, y0, rows, row + 1, 0) {
        let p = choose|p: int| #[trigger]
            erases(s, x0, y0, rows, p) && reached(x0, y0, row + 1, 0, p);
        assert(reached(x0, y0, row, col, p));
    }
}

/// Once every row that falls on the display is drawn, the whole sprite is.
proof fn lemma_draw_done(s: MachineState, x0: int, y0: int, rows: int)
    requires
        s.wf(),
        0 <= x0 < 64,
        0 <= y0 < 32,
        0 <= rows,
    ensures
        drawn_upto(s, x0, y0, rows, visible_rows(y0, rows), 0) == drawn(s, x0, y0, rows),
        collides_upto(s, x0, y0, rows, visible_rows(y0, rows), 0) == collides(s, x0, y0, rows),
{
    let visible = visible_rows(y0, rows);
    assert forall|p: int| 0 <= p < 2048 && flips(s, x0, y0, rows, p) implies reached(
        x0,
        y0,
        visible,
        0,
        p,
    ) by {}
    assert(drawn_upto(s, x0, y0, rows, visible, 0) =~= drawn(s, x0, y0, rows));
    if collides(s, x0, y0, rows) {
        let p = choose|p: int| #[trigger] erases(s, x0, y0, rows, p);
        assert(reached(x0, y0, visible, 0, p));
    }
}

impl Machine {
    /// Reads the instruction word at the program counter, high byte first.
    /// Changes nothing.
    pub fn fetch(&self) -> (res: Result<u16, Fault>)
        ensures
            res == fetch_spec(self@),
    {
        if self.pc > 4094 {
            return Err(Fault::FetchOutOfRange { pc: self.pc });
        }
        let high: u8 = self.memory[self.pc as usize];
        let low: u8 = self.memory[self.pc as usize + 1];
        assert(((high as u16) << 8) | (low as u16) == (high as u16) * 256 + (low as u16))
            by (bit_vector);
        Ok(((high as u16) << 8) | (low as u16))
    }

    /// Moves the program counter on by `by`.
    fn advance(&mut self, by: u16)
        requires
            old(self).pc <= 4094,
            by <= 4,
        ensures
            final(self)@ == old(self)@.advanced(by as int),
    {
        self.pc = self.pc + by;
    }

    /// Moves the program counter over the next instruction if `skip` holds,
    /// and to it otherwise.
    fn skip_if(&mut self, skip: bool)
        requires
            old(self).pc <= 4094,
        ensures
            final(self)@ == old(self)@.skipping(skip),
    {
        if skip {
            self.advance(4);
        } else {
            self.advance(2);
        }
    }

    /// Writes `value` to register `x`.
    fn set_register(&mut self, x: u8, value: u8)
        requires
            x < 16,
        ensures
            final(self)@ == old(self)@.with_register(x, value),
    {
        self.registers[x as usize] = value;
    }

    /// `Vx = Vx + Vy`, wrapping, then `VF` = 1 on a carry, else 0.
    fn add_carry(&mut self, x: u8, y: u8)
        requires
            x < 16,
            y < 16,
        ensures
            final(self)@ == old(self)@.add_carry(x, y),
    {
        let a: u8 = self.registers[x as usize];
        let b: u8 = self.registers[y as usize];
        let sum: u16 = a as u16 + b as u16;
        if sum > 255 {
            self.set_register(x, (sum - 256) as u8);
            self.set_register(15, 1);
        } else {
            self.set_register(x, sum as u8);
            self.set_register(15, 0);
        }
    }

    /// `Vx = minuend - subtrahend`, wrapping, then `VF` = 0 on a borrow,
    /// else 1.
    fn store_difference(&mut self, x: u8, minuend: u8, subtrahend: u8)
        requires
            x < 16,
        ensures
            final(self)@ == old(self)@.with_result(
                x,
                wrapped_difference(minuend, subtrahend),
                no_borrow(minuend, subtrahend),
            ),
    {
        if minuend < subtrahend {
            self.set_register(x, (256 - (subtrahend - minuend) as u16) as u8);
            self.set_register(15, 0);
        } else {
            self.set_register(x, minuend - subtrahend);
            self.set_register(15, 1);
        }
    }

    /// `VF` = lowest bit of `Vx`, then `Vx` shifted right by one.
    fn shift_right(&mut self, x: u8)
        requires
            x < 16,
        ensures
            final(self)@ == old(self)@.shift_right(x),
    {
        let before: u8 = self.registers[x as usize];
        assert(before & 0x01 == before % 2) by (bit_vector);
        self.set_register(15, before & 0x01);
        let value: u8 = self.registers[x as usize];
        assert(value >> 1 == value / 2) by (bit_vector);
        self.set_register(x, value >> 1);
    }

    /// `VF` = highest bit of `Vx`, then `Vx` shifted left by one.
    fn shift_left(&mut self, x: u8)
        requires
            x < 16,
        ensures
            final(self)@ == old(self)@.shift_left(x),
    {
        let before: u8 = self.registers[x as usize];
        assert(before >> 7 == before / 128) by (bit_vector);
        self.set_register(15, before >> 7);
        let value: u8 = self.registers[x as usize];
        assert(value << 1 == (value * 2) % 256) by (bit_vector);
        self.set_register(x, value << 1);
    }

    /// `I = I + Vx`, wrapping at sixteen bits, then `VF` = 1 on a carry,
    /// else 0.
    fn add_index(&mut self, x: u8)
        requires
            x < 16,
        ensures
            final(self)@ == old(self)@.add_index(x),
    {
        let sum: u32 = self.index as u32 + self.registers[x as usize] as u32;
        if sum > 65535 {
            self.index = (sum - 65536) as u16;
            self.set_register(15, 1);
        } else {
            self.index = sum as u16;
            self.set_register(15, 0);
        }
    }

    /// Pushes the program counter and continues at `address`; a fault if
    /// the stack is full.
    fn call(&mut self, address: u16) -> (res: Result<(), Fault>)
        requires
            old(self)@.wf(),
            old(self).pc <= 4094,
        ensures
            final(self)@.wf(),
            agrees(old(self)@, old(self)@.call(address), final(self)@, res),
    {
        if self.stack_pointer >= 16 {
            return Err(Fault::StackOverflow { pc: self.pc });
        }
        self.stack[self.stack_pointer as usize] = self.pc;
        self.stack_pointer += 1;
        self.pc = address;
        Ok(())
    }

    /// Pops the address of the last call and continues behind it; a fault
    /// if the stack is empty.
    fn ret(&mut self) -> (res: Result<(), Fault>)
        requires
            old(self)@.wf(),
        ensures
            final(self)@.wf(),
            agrees(old(self)@, old(self)@.ret(), final(self)@, res),
    {
        if self.stack_pointer == 0 {
            return Err(Fault::StackUnderflow { pc: self.pc });
        }
        self.stack_pointer -= 1;
        self.pc = self.stack[self.stack_pointer as usize] + 2;
        Ok(())
    }

    /// Skips the next instruction if the key numbered `Vx` is down and
    /// `wanted`, or up and not `wanted`; a fault if there is no such key.
    fn skip_on_key(&mut self, x: u8, wanted: bool) -> (res: Result<(), Fault>)
        requires
            x < 16,
            old(self).pc <= 4094,
        ensures
            agrees(old(self)@, old(self)@.skip_on_key(x, wanted), final(self)@, res),
    {
        let key: u8 = self.registers[x as usize];
        if key >= 16 {
            return Err(Fault::KeyOutOfRange { pc: self.pc, key });
        }
        let down: bool = self.keys[key as usize];
        self.skip_if(down == wanted);
        Ok(())
    }

    /// Blanks the display and asks for a redraw.
    fn clear_screen(&mut self)
        ensures
            final(self)@ == old(self)@.cleared(),
    {
        self.framebuffer = [false; 2048];
        self.redraw = true;
        assert(self@.framebuffer =~= Seq::new(2048, |p: int| false));
    }

    /// Lays the sprite row `bits` over display row `y0 + row`, from column
    /// `x0` on, and reports whether a lit pixel went out.
    fn draw_row(
        &mut self,
        Ghost(before): Ghost<MachineState>,
        x0: u8,
        y0: u8,
        rows: u8,
        row: u8,
        bits: u8,
        erased: bool,
    ) -> (now_erased: bool)
        requires
            before.wf(),
            x0 < 64,
            y0 < 32,
            rows < 16,
            row < rows,
            y0 + row < 32,
            bits == before.memory[before.index + row],
            old(self)@ == (MachineState {
                framebuffer: drawn_upto(before, x0 as int, y0 as int, rows as int, row as int, 0),
                ..before
            }),
            erased == collides_upto(before, x0 as int, y0 as int, rows as int, row as int, 0),
        ensures
            final(self)@ == (MachineState {
                framebuffer: drawn_upto(
                    before,
                    x0 as int,
                    y0 as int,
                    rows as int,
                    row as int + 1,
                    0,
                ),
                ..before
            }),
            now_erased == collides_upto(
                before,
                x0 as int,
                y0 as int,
                rows as int,
                row as int + 1,
                0,
            ),
    {
        let mut now_erased: bool = erased;
        let mut col: u8 = 0;
        while col < 8 && x0 + col < 64
            invariant
                before.wf(),
                x0 < 64,
                y0 < 32,
                rows < 16,
                row < rows,
                y0 + row < 32,
                col <= 8,
                x0 + col <= 64,
                bits == before.memory[before.index + row],
                self@ == (MachineState {
                    framebuffer: drawn_upto(
                        before,
                        x0 as int,
                        y0 as int,
                        rows as int,
                        row as int,
                        col as int,
                    ),
                    ..before
                }),
                now_erased == collides_upto(
                    before,
                    x0 as int,
                    y0 as int,
                    rows as int,
                    row as int,
                    col as int,
                ),
            decreases 8 - col,
        {
            let at: usize = (y0 + row) as usize * 64 + (x0 + col) as usize;
            let ghost upto = drawn_upto(
                before,
                x0 as int,
                y0 as int,
                rows as int,
                row as int,
                col as int,
            );
            assert(at / 64 == y0 + row && at % 64 == x0 + col);
            assert(!reached(x0 as int, y0 as int, row as int, col as int, at as int));
            assert(reached(x0 as int, y0 as int, row as int, col as int + 1, at as int));
            assert(flips(before, x0 as int, y0 as int, rows as int, at as int) == (bits & (0x80u8
                >> col) != 0));
            assert(self.framebuffer@[at as int] == before.framebuffer[at as int]);
            if bits & (0x80u8 >> col) != 0 {
                if self.framebuffer[at] {
                    now_erased = true;
                }
                self.framebuffer[at] = !self.framebuffer[at];
            }
            col += 1;
            proof {
                let next = drawn_upto(
                    before,
                    x0 as int,
                    y0 as int,
                    rows as int,
                    row as int,
                    col as int,
                );
                assert forall|p: int| 0 <= p < 2048 implies self.framebuffer@[p] == next[p] by {
                    if p != at {
                        assert(reached(x0 as int, y0 as int, row as int, col as int, p)
                            == reached(x0 as int, y0 as int, row as int, col as int - 1, p));
                        assert(self.framebuffer@[p] == upto[p]);
                    }
                }
                assert(self.framebuffer@ =~= next);
                lemma_collides_step(
                    before,
                    x0 as int,
                    y0 as int,
                    rows as int,
                    row as int,
                    col as int - 1,
                );
            }
        }
        proof {
            lemma_row_done(before, x0 as int, y0 as int, rows as int, row as int, col as int);
        }
        now_erased
    }

    /// Draws the sprite of `rows` rows at `I` at column `Vx mod 64`, row
    /// `Vy mod 32`, leaving out what falls off the right and bottom edges;
    /// `VF` = 1 if a lit pixel went out, else 0. A fault if a row that falls
    /// on the display lies past the end of memory.
    fn draw(&mut self, x: u8, y: u8, rows: u8) -> (res: Result<(), Fault>)
        requires
            old(self)@.wf(),
            x < 16,
            y < 16,
            rows < 16,
            old(self).pc <= 4094,
        ensures
            final(self)@.wf(),
            agrees(old(self)@, old(self)@.draw(x, y, rows), final(self)@, res),
    {
        let x0: u8 = self.registers[x as usize] % 64;
        let y0: u8 = self.registers[y as usize] % 32;
        let visible: u8 = if y0 + rows <= 32 {
            rows
        } else {
            32 - y0
        };
        if rows > 0 && self.index as usize + visible as usize > 4096 {
            return Err(Fault::AccessOutOfRange { pc: self.pc, index: self.index });
        }
        let ghost before = self@;
        let mut erased: bool = false;
        let mut row: u8 = 0;
        proof {
            lemma_draw_start(before, x0 as int, y0 as int, rows as int);
        }
        while row < visible
            invariant
                before.wf(),
                x0 < 64,
                y0 < 32,
                rows < 16,
                row <= visible,
                visible == visible_rows(y0 as int, rows as int),
                visible > 0 ==> before.index + visible <= 4096,
                self@ == (MachineState {
                    framebuffer: drawn_upto(
                        before,
                        x0 as int,
                        y0 as int,
                        rows as int,
                        row as int,
                        0,
                    ),
                    ..before
                }),
                erased == collides_upto(before, x0 as int, y0 as int, rows as int, row as int, 0),
            decreases visible - row,
        {
            let bits: u8 = self.memory[self.index as usize + row as usize];
            erased = self.draw_row(Ghost(before), x0, y0, rows, row, bits, erased);
            row += 1;
        }
        proof {
            lemma_draw_done(before, x0 as int, y0 as int, rows as int);
        }
        self.set_register(15, if erased { 1 } else { 0 });
        self.redraw = true;
        self.advance(2);
        Ok(())
    }

    /// Writes the decimal digits of `Vx` to `I`, `I + 1` and `I + 2`; a
    /// fault if they do not all lie in memory.
    fn store_bcd(&mut self, x: u8) -> (res: Result<(), Fault>)
        requires
            x < 16,
            old(self).pc <= 4094,
        ensures
            agrees(old(self)@, old(self)@.store_bcd(x), final(self)@, res),
    {
        if self.index > 4093 {
            return Err(Fault::AccessOutOfRange { pc: self.pc, index: self.index });
        }
        let value: u8 = self.registers[x as usize];
        let at: usize = self.index as usize;
        self.memory[at] = value / 100;
        self.memory[at + 1] = (value / 10) % 10;
        self.memory[at + 2] = value % 10;
        assert(self@.memory =~= memory_with(
            old(self)@.memory,
            old(self)@.index as int,
            decimal_digits(value),
        ));
        self.advance(2);
        Ok(())
    }

    /// Copies `V0` to `Vx` to memory at `I` on and moves `I` behind them; a
    /// fault if they do not all fit in memory.
    fn dump_registers(&mut self, x: u8) -> (res: Result<(), Fault>)
        requires
            x < 16,
            old(self).pc <= 4094,
        ensures
            agrees(old(self)@, old(self)@.dump_registers(x), final(self)@, res),
    {
        if self.index as usize + x as usize > 4095 {
            return Err(Fault::AccessOutOfRange { pc: self.pc, index: self.index });
        }
        let at: usize = self.index as usize;
        let mut r: usize = 0;
        while r <= x as usize
            invariant
                x < 16,
                r <= x + 1,
                at == old(self).index,
                at + x <= 4095,
                self.memory@ == memory_with(
                    old(self)@.memory,
                    at as int,
                    old(self)@.registers.subrange(0, r as int),
                ),
                (MachineState { memory: old(self)@.memory, ..self@ }) == old(self)@,
            decreases x + 1 - r,
        {
            self.memory[at + r] = self.registers[r];
            r += 1;
            assert(self.memory@ =~= memory_with(
                old(self)@.memory,
                at as int,
                old(self)@.registers.subrange(0, r as int),
            ));
        }
        self.index = self.index + x as u16 + 1;
        self.advance(2);
        Ok(())
    }

    /// Fills `V0` to `Vx` from memory at `I` on and moves `I` behind what
    /// was read; a fault if that does not all lie in memory.
    fn load_registers(&mut self, x: u8) -> (res: Result<(), Fault>)
        requires
            x < 16,
            old(self).pc <= 4094,
        ensures
            agrees(old(self)@, old(self)@.load_registers(x), final(self)@, res),
    {
        if self.index as usize + x as usize > 4095 {
            return Err(Fault::AccessOutOfRange { pc: self.pc, index: self.index });
        }
        let at: usize = self.index as usize;
        let mut r: usize = 0;
        while r <= x as usize
            invariant
                x < 16,
                r <= x + 1,
                at == old(self).index,
                at + x <= 4095,
                self.registers@ == registers_from(
                    old(self)@.registers,
                    old(self)@.memory,
                    at as int,
                    r as int,
                ),
                (MachineState { registers: old(self)@.registers, ..self@ }) == old(self)@,
            decreases x + 1 - r,
        {
            self.registers[r] = self.memory[at + r];
            r += 1;
            assert(self.registers@ =~= registers_from(
                old(self)@.registers,
                old(self)@.memory,
                at as int,
                r as int,
            ));
        }
        self.index = self.index + x as u16 + 1;
        self.advance(2);
        Ok(())
    }

    /// The instructions that only steer: jumps, calls, skips and the wait
    /// for a key. `None` for any other instruction, which is left undone.
    fn execute_control(&mut self, instruction: Instruction) -> (res: Option<Result<(), Fault>>)
        requires
            old(self)@.wf(),
            instruction.wf(),
            old(self).pc <= 4094,
        ensures
            final(self)@.wf(),
            res == None::<Result<(), Fault>> <==> !instruction.is_control(),
            res matches Some(r) ==> forall|random: u8|
                agrees(
                    old(self)@,
                    #[trigger] execute_spec(old(self)@, instruction, random),
                    final(self)@,
                    r,
                ),
            res == None::<Result<(), Fault>> ==> final(self)@ == old(self)@,
    {
        match instruction {
            Instruction::MachineRoutine { address } => {
                self.advance(2);
                Some(Ok(()))
            },
            Instruction::Return => Some(self.ret()),
            Instruction::Jump { address } => {
                self.pc = address;
                Some(Ok(()))
            },
            Instruction::Call { address } => Some(self.call(address)),
            Instruction::SkipIfEqual { x, value } => {
                let skip: bool = self.registers[x as usize] == value;
                self.skip_if(skip);
                Some(Ok(()))
            },
            Instruction::SkipIfNotEqual { x, value } => {
                let skip: bool = self.registers[x as usize] != value;
                self.skip_if(skip);
                Some(Ok(()))
            },
            Instruction::SkipIfRegistersEqual { x, y } => {
                let skip: bool = self.registers[x as usize] == self.registers[y as usize];
                self.skip_if(skip);
                Some(Ok(()))
            },
            Instruction::SkipIfRegistersNotEqual { x, y } => {
                let skip: bool = self.registers[x as usize] != self.registers[y as usize];
                self.skip_if(skip);
                Some(Ok(()))
            },
            Instruction::JumpOffset { address } => {
                self.pc = address + self.registers[0] as u16;
                Some(Ok(()))
            },
            Instruction::SkipIfKey { x } => Some(self.skip_on_key(x, true)),
            Instruction::SkipIfNotKey { x } => Some(self.skip_on_key(x, false)),
            Instruction::WaitKey { x } => {
                self.awaiting_key = true;
                self.key_target = x;
                self.advance(2);
                Some(Ok(()))
            },
            _ => None,
        }
    }

    /// The instructions that compute a register from registers, an
    /// immediate or the random byte. `false` for any other instruction,
    /// which is left undone.
    fn execute_arithmetic(&mut self, instruction: Instruction, random: u8) -> (done: bool)
        requires
            old(self)@.wf(),
            instruction.wf(),
            old(self).pc <= 4094,
        ensures
            final(self)@.wf(),
            done <==> instruction.is_arithmetic(),
            done ==> agrees(
                old(self)@,
                execute_spec(old(self)@, instruction, random),
                final(self)@,
                Ok(()),
            ),
            !done ==> final(self)@ == old(self)@,
    {
        match instruction {
            Instruction::LoadImmediate { x, value } => {
                self.set_register(x, value);
            },
            Instruction::AddImmediate { x, value } => {
                let sum: u8 = self.registers[x as usize].wrapping_add(value);
                self.set_register(x, sum);
            },
            Instruction::Assign { x, y } => {
                let value: u8 = self.registers[y as usize];
                self.set_register(x, value);
            },
            Instruction::Or { x, y } => {
                let value: u8 = self.registers[x as usize] | self.registers[y as usize];
                self.set_register(x, value);
            },
            Instruction::And { x, y } => {
                let value: u8 = self.registers[x as usize] & self.registers[y as usize];
                self.set_register(x, value);
            },
            Instruction::Xor { x, y } => {
                let value: u8 = self.registers[x as usize] ^ self.registers[y as usize];
                self.set_register(x, value);
            },
            Instruction::AddCarry { x, y } => {
                self.add_carry(x, y);
            },
            Instruction::Subtract { x, y } => {
                let minuend: u8 = self.registers[x as usize];
                let subtrahend: u8 = self.registers[y as usize];
                self.store_difference(x, minuend, subtrahend);
            },
            Instruction::ShiftRight { x, y } => {
                self.shift_right(x);
            },
            Instruction::ReverseSubtract { x, y } => {
                let minuend: u8 = self.registers[y as usize];
                let subtrahend: u8 = self.registers[x as usize];
                self.store_difference(x, minuend, subtrahend);
            },
            Instruction::ShiftLeft { x, y } => {
                self.shift_left(x);
            },
            Instruction::Random { x, mask } => {
                self.set_register(x, random & mask);
            },
            _ => {
                return false;
            },
        }
        self.advance(2);
        true
    }

    /// The instructions that work on the display, the timers, the index
    /// register and memory. `None` for any other instruction, which is left
    /// undone.
    fn execute_device(&mut self, instruction: Instruction) -> (res: Option<Result<(), Fault>>)
        requires
            old(self)@.wf(),
            instruction.wf(),
            old(self).pc <= 4094,
        ensures
            final(self)@.wf(),
            res == None::<Result<(), Fault>> <==> (instruction.is_control()
                || instruction.is_arithmetic()),
            res matches Some(r) ==> forall|random: u8|
                agrees(
                    old(self)@,
                    #[trigger] execute_spec(old(self)@, instruction, random),
                    final(self)@,
                    r,
                ),
            res == None::<Result<(), Fault>> ==> final(self)@ == old(self)@,
    {
        match instruction {
            Instruction::ClearScreen => {
                self.clear_screen();
                self.advance(2);
                Some(Ok(()))
            },
            Instruction::SetIndex { address } => {
                self.index = address;
                self.advance(2);
                Some(Ok(()))
            },
            Instruction::Draw { x, y, rows } => Some(self.draw(x, y, rows)),
            Instruction::GetDelay { x } => {
                let value: u8 = self.delay_timer;
                self.set_register(x, value);
                self.advance(2);
                Some(Ok(()))
            },
            Instruction::SetDelay { x } => {
                self.delay_timer = self.registers[x as usize];
                self.advance(2);
                Some(Ok(()))
            },
            Instruction::SetSound { x } => {
                self.sound_timer = self.registers[x as usize];
                self.advance(2);
                Some(Ok(()))
            },
            Instruction::AddIndex { x } => {
                self.add_index(x);
                self.advance(2);
                Some(Ok(()))
            },
            Instruction::FontAddress { x } => {
                self.index = self.registers[x as usize] as u16 * 5;
                self.advance(2);
                Some(Ok(()))
            },
            Instruction::StoreBcd { x } => Some(self.store_bcd(x)),
            Instruction::DumpRegisters { x } => Some(self.dump_registers(x)),
            Instruction::LoadRegisters { x } => Some(self.load_registers(x)),
            _ => None,
        }
    }

    /// Carries out one decoded instruction, with `random` as the byte that
    /// the random instruction consumes.
    fn execute(&mut self, instruction: Instruction, random: u8) -> (res: Result<(), Fault>)
        requires
            old(self)@.wf(),
            instruction.wf(),
            old(self).pc <= 4094,
        ensures
            final(self)@.wf(),
            agrees(
                old(self)@,
                execute_spec(old(self)@, instruction, random),
                final(self)@,
                res,
            ),
    {
        if let Some(res) = self.execute_control(instruction) {
            return res;
        }
        if self.execute_arithmetic(instruction, random) {
            return Ok(());
        }
        match self.execute_device(instruction) {
            Some(res) => res,
            None => Ok(()),
        }
    }

    /// One cycle with the random byte supplied by the caller: while the
    /// machine waits for a key nothing happens; otherwise the instruction at
    /// the program counter is fetched, decoded and carried out. `random` is
    /// read only by the random instruction. On a fault the machine is left
    /// exactly as it was.
    pub fn step_with(&mut self, random: u8) -> (res: Result<(), Fault>)
        requires
            old(self)@.wf(),
        ensures
            final(self)@.wf(),
            agrees(old(self)@, step_spec(old(self)@, random), final(self)@, res),
    {
        if self.awaiting_key {
            return Ok(());
        }
        let opcode: u16 = match self.fetch() {
            Ok(word) => word,
            Err(fault) => {
                return Err(fault);
            },
        };
        match decode(opcode) {
            Some(instruction) => self.execute(instruction, random),
            None => Err(Fault::UnknownOpcode { opcode, pc: self.pc }),
        }
    }

    /// Whether the next cycle consumes a random byte: the machine is running
    /// and a random instruction stands at the program counter.
    pub fn draws_random(&self) -> (drawn: bool)
        ensures
            drawn == draws_random(self@),
    {
        if self.awaiting_key {
            return false;
        }
        match self.fetch() {
            Ok(opcode) => match decode(opcode) {
                Some(Instruction::Random { x, mask }) => true,
                _ => false,
            },
            Err(fault) => false,
        }
    }

    /// One cycle. A random instruction gets its byte from the generator, so
    /// the machine ends as `step_with` leaves it for some byte below 255;
    /// any other cycle ends as `step_with` leaves it for every byte.
    pub fn step(&mut self) -> (res: Result<(), Fault>)
        requires
            old(self)@.wf(),
        ensures
            final(self)@.wf(),
            exists|random: u8|
                random < 255 && agrees(
                    old(self)@,
                    #[trigger] step_spec(old(self)@, random),
                    final(self)@,
                    res,
                ),
            !draws_random(old(self)@) ==> forall|random: u8|
                agrees(old(self)@, #[trigger] step_spec(old(self)@, random), final(self)@, res),
    {
        let random: u8 = if self.draws_random() {
            random_byte()
        } else {
            0
        };
        self.step_with(random)
    }
}

} // verus!
