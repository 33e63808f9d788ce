//! The machine itself: the state held in fixed arrays, and the operations
//! the host drives it with.

use vstd::prelude::*;
use crate::fault::Fault;
use crate::font::{font_table, FONT};
use crate::model::{
    acknowledged, agrees, initial_state, load_spec, memory_with_image, set_key_spec, tick_spec,
    MachineState,
};

verus! {

/// A CHIP-8 machine.
#[derive(Clone, Copy, Debug, PartialEq, Eq)]
pub struct Machine {
    pub(crate) memory: [u8; 4096],
    pub(crate) framebuffer: [bool; 2048],
    pub(crate) registers: [u8; 16],
    pub(crate) stack: [u16; 16],
    pub(crate) keys: [bool; 16],
    pub(crate) index: u16,
    pub(crate) pc: u16,
    pub(crate) stack_pointer: u8,
    pub(crate) delay_timer: u8,
    pub(crate) sound_timer: u8,
    pub(crate) redraw: bool,
    pub(crate) awaiting_key: bool,
    pub(crate) key_target: u8,
}

impl Machine {
    /// The snapshot that this machine holds.
    pub open(crate) spec fn view(&self) -> MachineState {
        MachineState {
            memory: self.memory@,
            framebuffer: self.framebuffer@,
            registers: self.registers@,
            stack: self.stack@,
            stack_pointer: self.stack_pointer,
            index: self.index,
            pc: self.pc,
            delay_timer: self.delay_timer,
            sound_timer: self.sound_timer,
            keys: self.keys@,
            awaiting_key: self.awaiting_key,
            key_target: self.key_target,
            redraw: self.redraw,
        }
    }

    /// A machine in its initial state.
    pub fn reset() -> (machine: Machine)
        ensures
            machine@ == initial_state(),
            machine@.wf(),
    {
        let mut machine = Machine {
            memory: [0; 4096],
            framebuffer: [false; 2048],
            registers: [0; 16],
            stack: [0; 16],
            keys: [false; 16],
            index: 0,
            pc: 0x200,
            stack_pointer: 0,
            delay_timer: 0,
            sound_timer: 0,
            redraw: false,
            awaiting_key: false,
            key_target: 0,
        };
        let mut offset: usize = 0;
        while offset < 80
            invariant
                offset <= 80,
                forall|a: int| 0 <= a < offset ==> machine.memory@[a] == font_table()[a],
                forall|a: int| offset <= a < 4096 ==> machine.memory@[a] == 0,
                machine.framebuffer@ == initial_state().framebuffer,
                machine.registers@ == initial_state().registers,
                machine.stack@ == initial_state().stack,
                machine.keys@ == initial_state().keys,
                machine.index == 0,
                machine.pc == 0x200,
                machine.stack_pointer == 0,
                machine.delay_timer == 0,
                machine.sound_timer == 0,
                !machine.redraw,
                !machine.awaiting_key,
                machine.key_target == 0,
            decreases 80 - offset,
        {
            machine.memory[offset] = FONT[offset];
            offset += 1;
        }
        assert(machine@.memory =~= initial_state().memory);
        machine
    }

    /// Copies a program image into memory from address 512 on. An image of
    /// more than 3584 bytes is refused and nothing is written.
    pub fn load(&mut self, image: &[u8]) -> (res: Result<(), Fault>)
        requires
            old(self)@.wf(),
        ensures
            final(self)@.wf(),
            agrees(old(self)@, load_spec(old(self)@, image@), final(self)@, res),
    {
        let len: usize = image.len();
        if len > 3584 {
            return Err(Fault::ImageTooLarge { len });
        }
        let mut k: usize = 0;
        while k < len
            invariant
                len == image@.len(),
                len <= 3584,
                k <= len,
                forall|a: int| 512 <= a < 512 + k ==> self.memory@[a] == image@[a - 512],
                forall|a: int|
                    0 <= a < 4096 && !(512 <= a < 512 + k) ==> self.memory@[a] == old(
                        self,
                    ).memory@[a],
                (MachineState { memory: old(self)@.memory, ..self@ }) == old(self)@,
            decreases len - k,
        {
            self.memory[k + 512] = image[k];
            k += 1;
        }
        assert(self@.memory =~= memory_with_image(old(self)@.memory, image@));
        Ok(())
    }

    /// Counts both timers down by one, stopping at zero. Does nothing while
    /// the machine waits for a key.
    pub fn tick_timers(&mut self)
        requires
            old(self)@.wf(),
        ensures
            final(self)@.wf(),
            final(self)@ == tick_spec(old(self)@),
    {
        if !self.awaiting_key {
            if self.delay_timer > 0 {
                self.delay_timer -= 1;
            }
            if self.sound_timer > 0 {
                self.sound_timer -= 1;
            }
        }
    }

    /// Records that key `key` went down or up. A press while the machine
    /// waits for a key stores the key in the waiting register and lets the
    /// machine run again.
    pub fn set_key(&mut self, key: u8, pressed: bool)
        requires
            old(self)@.wf(),
            key < 16,
        ensures
            final(self)@.wf(),
            final(self)@ == set_key_spec(old(self)@, key, pressed),
    {
        self.keys[key as usize] = pressed;
        if pressed && self.awaiting_key {
            self.registers[self.key_target as usize] = key;
            self.awaiting_key = false;
        }
    }

    /// Withdraws the redraw request, once the host has presented the display.
    pub fn acknowledge_redraw(&mut self)
        requires
            old(self)@.wf(),
        ensures
            final(self)@.wf(),
            final(self)@ == acknowledged(old(self)@),
    {
        self.redraw = false;
    }

    /// The whole of memory.
    pub fn memory(&self) -> (bytes: &[u8; 4096])
        ensures
            bytes@ == self@.memory,
    {
        &self.memory
    }

    /// The display, row by row: pixel `(x, y)` is at `y * 64 + x`.
    pub fn framebuffer(&self) -> (pixels: &[bool; 2048])
        ensures
            pixels@ == self@.framebuffer,
    {
        &self.framebuffer
    }

    /// The pixel at column `x`, row `y`.
    pub fn pixel(&self, x: usize, y: usize) -> (lit: bool)
        requires
            x < 64,
            y < 32,
        ensures
            lit == self@.pixel(x as int, y as int),
    {
        self.framebuffer[y * 64 + x]
    }

    /// The registers `V0` to `VF`.
    pub fn registers(&self) -> (values: &[u8; 16])
        ensures
            values@ == self@.registers,
    {
        &self.registers
    }

    /// The sixteen call-stack slots; the first `stack_pointer()` are live.
    pub fn stack(&self) -> (slots: &[u16; 16])
        ensures
            slots@ == self@.stack,
    {
        &self.stack
    }

    /// The number of live call-stack entries.
    pub fn stack_pointer(&self) -> (depth: u8)
        ensures
            depth == self@.stack_pointer,
    {
        self.stack_pointer
    }

    /// Which keys are held down.
    pub fn keys(&self) -> (held: &[bool; 16])
        ensures
            held@ == self@.keys,
    {
        &self.keys
    }

    /// The index register `I`.
    pub fn index(&self) -> (value: u16)
        ensures
            value == self@.index,
    {
        self.index
    }

    /// The address of the next instruction.
    pub fn pc(&self) -> (value: u16)
        ensures
            value == self@.pc,
    {
        self.pc
    }

    /// The delay timer.
    pub fn delay_timer(&self) -> (value: u8)
        ensures
            value == self@.delay_timer,
    {
        self.delay_timer
    }

    /// The sound timer.
    pub fn sound_timer(&self) -> (value: u8)
        ensures
            value == self@.sound_timer,
    {
        self.sound_timer
    }

    /// Whether the sound should be audible: the sound timer is not zero.
    pub fn sound_active(&self) -> (on: bool)
        ensures
            on == self@.sound_active(),
    {
        self.sound_timer > 0
    }

    /// Whether the machine waits for a key press.
    pub fn awaiting_key(&self) -> (waiting: bool)
        ensures
            waiting == self@.awaiting_key,
    {
        self.awaiting_key
    }

    /// The register that receives the key that ends the wait.
    pub fn key_target(&self) -> (x: u8)
        ensures
            x == self@.key_target,
    {
        self.key_target
    }

    /// Whether an instruction has changed the display since the last
    /// acknowledgement.
    pub fn redraw_requested(&self) -> (requested: bool)
        ensures
            requested == self@.redraw,
    {
        self.redraw
    }
}

} // verus!
