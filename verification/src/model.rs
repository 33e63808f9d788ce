//! The mathematical model of the machine: its state as plain sequences and
//! integers, and the operations the host drives it with.

use vstd::prelude::*;
use crate::fault::Fault;
use crate::font::font_table;

verus! {

/// Bytes of memory.
pub const MEMORY_SIZE: usize = 4096;

/// Address at which a program image is placed and execution starts.
pub const PROGRAM_START: u16 = 0x200;

/// Largest program image that fits above `PROGRAM_START`.
pub const MAX_IMAGE_SIZE: usize = 3584;

/// Width of the display in pixels.
pub const SCREEN_WIDTH: usize = 64;

/// Height of the display in pixels.
pub const SCREEN_HEIGHT: usize = 32;

/// Number of pixels on the display.
pub const SCREEN_PIXELS: usize = 2048;

/// A complete snapshot of the machine.
#[verifier::ext_equal]
pub struct MachineState {
    /// 4096 bytes; the font occupies the first 80.
    pub memory: Seq<u8>,
    /// 2048 pixels, row by row; pixel `(x, y)` is at `y * 64 + x`.
    pub framebuffer: Seq<bool>,
    /// The sixteen registers `V0` to `VF`.
    pub registers: Seq<u8>,
    /// Sixteen return-address slots, of which the first `stack_pointer` are live.
    pub stack: Seq<u16>,
    /// Number of live stack entries.
    pub stack_pointer: u8,
    /// The address register `I`.
    pub index: u16,
    /// Address of the next instruction.
    pub pc: u16,
    pub delay_timer: u8,
    pub sound_timer: u8,
    /// Whether each of the sixteen keys is held down.
    pub keys: Seq<bool>,
    /// Set while the machine waits for a key press.
    pub awaiting_key: bool,
    /// The register that receives the key that ends the wait.
    pub key_target: u8,
    /// Set by the instructions that change the display.
    pub redraw: bool,
}

impl MachineState {
    /// The shape every machine state has: collections of the fixed sizes, a
    /// stack pointer and key target in range, and on the live part of the
    /// stack only addresses at which an instruction was fetched.
    pub open spec fn wf(self) -> bool {
        &&& self.memory.len() == 4096
        &&& self.framebuffer.len() == 2048
        &&& self.registers.len() == 16
        &&& self.stack.len() == 16
        &&& self.keys.len() == 16
        &&& self.stack_pointer <= 16
        &&& self.key_target < 16
        &&& forall|i: int| 0 <= i < self.stack_pointer ==> #[trigger] self.stack[i] <= 4094
    }

    /// Whether the first 80 bytes of memory hold the font.
    pub open spec fn has_font(self) -> bool {
        self.memory.subrange(0, 80) == font_table()
    }

    /// The pixel at column `x`, row `y`.
    pub open spec fn pixel(self, x: int, y: int) -> bool {
        self.framebuffer[y * 64 + x]
    }

    /// Whether the sound signal is on.
    pub open spec fn sound_active(self) -> bool {
        self.sound_timer > 0
    }
}

/// The state after a reset: the font at the bottom of memory, the program
/// counter at the program start, everything else zero or false.
pub open spec fn initial_state() -> MachineState {
    MachineState {
        memory: Seq::new(4096, |a: int| if a < 80 { font_table()[a] } else { 0u8 }),
        framebuffer: Seq::new(2048, |p: int| false),
        registers: Seq::new(16, |r: int| 0u8),
        stack: Seq::new(16, |e: int| 0u16),
        stack_pointer: 0,
        index: 0,
        pc: 0x200,
        delay_timer: 0,
        sound_timer: 0,
        keys: Seq::new(16, |k: int| false),
        awaiting_key: false,
        key_target: 0,
        redraw: false,
    }
}

/// Memory with `image` written over it from address 512 on.
pub open spec fn memory_with_image(memory: Seq<u8>, image: Seq<u8>) -> Seq<u8> {
    Seq::new(
        memory.len(),
        |a: int| if 512 <= a < 512 + image.len() { image[a - 512] } else { memory[a] },
    )
}

/// Loading `image`: refused when it is longer than 3584 bytes, otherwise
/// copied to address 512 on with nothing else touched.
pub open spec fn load_spec(s: MachineState, image: Seq<u8>) -> Result<MachineState, Fault> {
    if image.len() > 3584 {
        Err(Fault::ImageTooLarge { len: image.len() as usize })
    } else {
        Ok(MachineState { memory: memory_with_image(s.memory, image), ..s })
    }
}

/// One step down for a timer, stopping at zero.
pub open spec fn ticked(timer: u8) -> u8 {
    if timer > 0 { (timer - 1) as u8 } else { 0 }
}

/// One timer tick: both timers count down unless the machine waits for a key.
pub open spec fn tick_spec(s: MachineState) -> MachineState {
    if s.awaiting_key {
        s
    } else {
        MachineState {
            delay_timer: ticked(s.delay_timer),
            sound_timer: ticked(s.sound_timer),
            ..s
        }
    }
}

/// A key event: key `key` goes down or up. A press while the machine waits
/// for a key also stores the key in the target register and ends the wait.
pub open spec fn set_key_spec(s: MachineState, key: u8, pressed: bool) -> MachineState {
    let keyed = MachineState { keys: s.keys.update(key as int, pressed), ..s };
    if pressed && s.awaiting_key {
        MachineState {
            registers: s.registers.update(s.key_target as int, key),
            awaiting_key: false,
            ..keyed
        }
    } else {
        keyed
    }
}

/// The state with the redraw request withdrawn.
pub open spec fn acknowledged(s: MachineState) -> MachineState {
    MachineState { redraw: false, ..s }
}

/// What an operation that may fault has to leave behind: on success the
/// state the model gives, on a fault that fault and the state untouched.
pub open spec fn agrees(
    before: MachineState,
    outcome: Result<MachineState, Fault>,
    after: MachineState,
    result: Result<(), Fault>,
) -> bool {
    match outcome {
        Ok(next) => result is Ok && after == next,
        Err(fault) => result == Err::<(), Fault>(fault) && after == before,
    }
}

} // verus!
