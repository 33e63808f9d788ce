//! Laws of the machine model, each proved from the definitions.

use vstd::prelude::*;
use crate::decode::Instruction;
use crate::display::{collides, erases, flips, sprite_covers};
use crate::fault::Fault;
use crate::font::{font_table, glyph};
use crate::model::{initial_state, load_spec, set_key_spec, tick_spec, MachineState};
use crate::semantics::{draws_random, execute_spec, fetch_spec, step_spec};

verus! {

/// The state that results from running one cycle for each byte of `randoms`
/// in turn, or the first fault met.
pub open spec fn run_cycles(s: MachineState, randoms: Seq<u8>) -> Result<MachineState, Fault>
    decreases randoms.len(),
{
    if randoms.len() == 0 {
        Ok(s)
    } else {
        match step_spec(s, randoms[0]) {
            Ok(next) => run_cycles(next, randoms.drop_first()),
            Err(fault) => Err(fault),
        }
    }
}

/// A freshly reset machine is well formed and holds the font in its first
/// 80 bytes.
pub proof fn lemma_reset_holds_font()
    ensures
        initial_state().wf(),
        initial_state().has_font(),
{
    assert(initial_state().memory.subrange(0, 80) =~= font_table());
}

/// Loading an image of at most 3584 bytes succeeds, puts byte `k` of the
/// image at address `512 + k`, and changes no other byte and nothing besides
/// memory; in particular the font stays where it is. A longer image is
/// refused.
pub proof fn lemma_load_places_image(s: MachineState, image: Seq<u8>)
    requires
        s.wf(),
    ensures
        image.len() > 3584 ==> load_spec(s, image) is Err,
        image.len() <= 3584 ==> (load_spec(s, image) matches Ok(next) && {
            &&& next.wf()
            &&& forall|k: int| 0 <= k < image.len() ==> next.memory[512 + k] == image[k]
            &&& forall|a: int|
                0 <= a < 512 || 512 + image.len() <= a < 4096 ==> next.memory[a] == s.memory[a]
            &&& next.memory.subrange(0, 80) == s.memory.subrange(0, 80)
            &&& s.has_font() ==> next.has_font()
            &&& (MachineState { memory: s.memory, ..next }) == s
        }),
{
    if image.len() <= 3584 {
        let next = load_spec(s, image)->Ok_0;
        assert(next.memory.subrange(0, 80) =~= s.memory.subrange(0, 80));
    }
}

/// With the font in place and a hexadecimal digit `d` in `Vx`, the font
/// address instruction leaves `I` pointing at five bytes that are exactly
/// the glyph for `d`.
pub proof fn lemma_font_address_finds_glyph(s: MachineState, x: u8, random: u8)
    requires
        s.wf(),
        s.has_font(),
        x < 16,
        s.reg(x) < 16,
    ensures
        execute_spec(s, Instruction::FontAddress { x }, random) matches Ok(next) && {
            &&& next.index == 5 * s.reg(x)
            &&& next.memory.subrange(next.index as int, next.index + 5) == glyph(s.reg(x) as int)
        },
{
    let next = execute_spec(s, Instruction::FontAddress { x }, random)->Ok_0;
    let d = s.reg(x) as int;
    assert forall|i: int| 0 <= i < 5 implies next.memory.subrange(
        next.index as int,
        next.index + 5,
    )[i] == glyph(d)[i] by {
        assert(s.memory.subrange(0, 80)[5 * d + i] == font_table()[5 * d + i]);
    }
    assert(next.memory.subrange(next.index as int, next.index + 5) =~= glyph(d));
}

/// Drawing changes no pixel outside the sprite's box: none left of the
/// sprite's first column or above its first row, none eight or more columns
/// to the right or `rows` or more rows below. So a sprite that reaches past
/// the right or bottom edge does not come back in at the opposite edge.
pub proof fn lemma_draw_clips(s: MachineState, x: u8, y: u8, rows: u8, px: int, py: int)
    requires
        s.wf(),
        x < 16,
        y < 16,
        rows < 16,
        0 <= px < 64,
        0 <= py < 32,
        s.draw(x, y, rows) is Ok,
    ensures
        ({
            let x0 = s.reg(x) % 64;
            let y0 = s.reg(y) % 32;
            let next = s.draw(x, y, rows)->Ok_0;
            !(x0 <= px < x0 + 8 && y0 <= py < y0 + rows) ==> next.pixel(px, py) == s.pixel(px, py)
        }),
{
    let p = py * 64 + px;
    assert(p / 64 == py && p % 64 == px);
}

/// Drawing flips exactly the pixels on the display that lie under a set bit
/// of the sprite, and sets `VF` to 1 if one of them was lit, to 0 if none.
pub proof fn lemma_draw_flips_under_sprite(
    s: MachineState,
    x: u8,
    y: u8,
    rows: u8,
    px: int,
    py: int,
)
    requires
        s.wf(),
        x < 16,
        y < 16,
        rows < 16,
        0 <= px < 64,
        0 <= py < 32,
        s.draw(x, y, rows) is Ok,
    ensures
        ({
            let x0 = (s.reg(x) % 64) as int;
            let y0 = (s.reg(y) % 32) as int;
            let next = s.draw(x, y, rows)->Ok_0;
            &&& next.pixel(px, py) == (s.pixel(px, py) != sprite_covers(
                s,
                x0,
                y0,
                rows as int,
                px,
                py,
            ))
            &&& next.reg(15) == 0 || next.reg(15) == 1
            &&& s.pixel(px, py) && sprite_covers(s, x0, y0, rows as int, px, py) ==> next.reg(15)
                == 1
        }),
{
    let p = py * 64 + px;
    let x0 = (s.reg(x) % 64) as int;
    let y0 = (s.reg(y) % 32) as int;
    assert(p / 64 == py && p % 64 == px);
    if s.pixel(px, py) && sprite_covers(s, x0, y0, rows as int, px, py) {
        assert(erases(s, x0, y0, rows as int, p));
    }
}

/// Drawing the same sprite twice at the same place restores the display.
/// The first draw reports no collision if no pixel under the sprite was
/// lit; the second then reports one exactly if the sprite shows a pixel at
/// all. The coordinate registers must not be `VF`, which the first draw
/// overwrites.
pub proof fn lemma_draw_twice_restores(s: MachineState, x: u8, y: u8, rows: u8)
    requires
        s.wf(),
        x < 15,
        y < 15,
        rows < 16,
        s.draw(x, y, rows) is Ok,
    ensures
        ({
            let x0 = (s.reg(x) % 64) as int;
            let y0 = (s.reg(y) % 32) as int;
            let once = s.draw(x, y, rows)->Ok_0;
            &&& once.draw(x, y, rows) matches Ok(twice)
            &&& twice.framebuffer == s.framebuffer
            &&& !collides(s, x0, y0, rows as int) ==> {
                &&& once.reg(15) == 0
                &&& twice.reg(15) == 1 <==> exists|p: int|
                    0 <= p < 2048 && #[trigger] flips(s, x0, y0, rows as int, p)
                &&& twice.reg(15) == 0 || twice.reg(15) == 1
            }
        }),
{
    let x0 = (s.reg(x) % 64) as int;
    let y0 = (s.reg(y) % 32) as int;
    let n = rows as int;
    let once = s.draw(x, y, rows)->Ok_0;
    assert(once.reg(x) == s.reg(x) && once.reg(y) == s.reg(y));
    assert(once.memory == s.memory && once.index == s.index);
    let twice = once.draw(x, y, rows)->Ok_0;
    assert forall|p: int| 0 <= p < 2048 implies flips(once, x0, y0, n, p) == flips(
        s,
        x0,
        y0,
        n,
        p,
    ) by {}
    assert(twice.framebuffer =~= s.framebuffer);
    if !collides(s, x0, y0, n) {
        if collides(once, x0, y0, n) {
            let p = choose|p: int| #[trigger] erases(once, x0, y0, n, p);
            assert(flips(s, x0, y0, n, p));
        }
        if exists|p: int| 0 <= p < 2048 && #[trigger] flips(s, x0, y0, n, p) {
            let p = choose|p: int| 0 <= p < 2048 && #[trigger] flips(s, x0, y0, n, p);
            assert(!erases(s, x0, y0, n, p));
            assert(erases(once, x0, y0, n, p));
        }
    }
}

/// The wait-for-key instruction stops the machine: it moves the program
/// counter on once, names the register that will take the key, and leaves
/// the machine waiting.
pub proof fn lemma_wait_key_suspends(s: MachineState, x: u8, random: u8)
    requires
        s.wf(),
        x < 16,
        s.pc <= 4094,
    ensures
        execute_spec(s, Instruction::WaitKey { x }, random) matches Ok(next) && {
            &&& next.awaiting_key
            &&& next.key_target == x
            &&& next.pc == s.pc + 2
            &&& next.wf()
        },
{
}

/// While the machine waits for a key it stands still: any number of cycles
/// and timer ticks leave every part of the state as it is, the program
/// counter and both timers included, and a key release changes the key's
/// state and nothing else.
pub proof fn lemma_waiting_machine_stands_still(s: MachineState, randoms: Seq<u8>, key: u8)
    requires
        s.wf(),
        s.awaiting_key,
        key < 16,
    ensures
        run_cycles(s, randoms) == Ok::<MachineState, Fault>(s),
        tick_spec(s) == s,
        set_key_spec(s, key, false) == (MachineState {
            keys: s.keys.update(key as int, false),
            ..s
        }),
        set_key_spec(s, key, false).awaiting_key,
    decreases randoms.len(),
{
    if randoms.len() > 0 {
        lemma_waiting_machine_stands_still(s, randoms.drop_first(), key);
    }
}

/// A key press ends the wait: the key is stored in the register that the
/// wait named, the key is marked as down, and the machine runs again with
/// everything else as it was.
pub proof fn lemma_key_press_resumes(s: MachineState, key: u8)
    requires
        s.wf(),
        s.awaiting_key,
        key < 16,
    ensures
        ({
            let next = set_key_spec(s, key, true);
            &&& !next.awaiting_key
            &&& next.reg(s.key_target) == key
            &&& next.keys[key as int]
            &&& next.pc == s.pc
            &&& next.delay_timer == s.delay_timer
            &&& next.sound_timer == s.sound_timer
            &&& next.wf()
        }),
{
}

/// A timer tick on a machine whose timers are both zero changes nothing.
pub proof fn lemma_tick_at_zero_is_idle(s: MachineState)
    requires
        s.delay_timer == 0,
        s.sound_timer == 0,
    ensures
        tick_spec(s) == s,
{
}

/// A timer never counts below zero, and a tick takes at most one off each.
pub proof fn lemma_tick_counts_down(s: MachineState)
    ensures
        tick_spec(s).delay_timer <= s.delay_timer,
        tick_spec(s).sound_timer <= s.sound_timer,
        s.delay_timer - tick_spec(s).delay_timer <= 1,
        s.sound_timer - tick_spec(s).sound_timer <= 1,
{
}

/// Dumping `V0` to `Vx` and loading them back from the same place restores
/// them, whatever the registers held in between, and each of the two moves
/// `I` on by `x + 1`. Here `t` is any later state whose memory still holds
/// what the dump wrote and whose `I` is back at the start of it.
pub proof fn lemma_dump_then_load_restores(s: MachineState, t: MachineState, x: u8)
    requires
        s.wf(),
        t.wf(),
        x < 16,
        s.dump_registers(x) is Ok,
        t.index == s.index,
        forall|a: int|
            s.index <= a <= s.index + x ==> #[trigger] t.memory[a] == (s.dump_registers(
                x,
            )->Ok_0).memory[a],
    ensures
        ({
            let dumped = s.dump_registers(x)->Ok_0;
            &&& dumped.index == s.index + x + 1
            &&& dumped.registers == s.registers
            &&& t.load_registers(x) matches Ok(loaded)
            &&& loaded.index == t.index + x + 1
            &&& forall|r: int| 0 <= r <= x ==> loaded.registers[r] == s.registers[r]
            &&& forall|r: int| x < r < 16 ==> loaded.registers[r] == t.registers[r]
        }),
{
}

/// The random byte matters to the random instruction alone: a cycle that
/// does not carry out that instruction ends the same whatever byte it is
/// given.
pub proof fn lemma_random_matters_to_random_only(s: MachineState, a: u8, b: u8)
    requires
        !draws_random(s),
    ensures
        step_spec(s, a) == step_spec(s, b),
{
}

/// A cycle leaves a well-formed state well formed.
pub proof fn lemma_step_keeps_well_formed(s: MachineState, random: u8)
    requires
        s.wf(),
    ensures
        step_spec(s, random) matches Ok(next) ==> next.wf(),
{
    if !s.awaiting_key && fetch_spec(s) is Ok {
        assert(s.pc <= 4094);
    }
}

/// A fault is permanent: the cycle that reports it leaves the state as it
/// was, so every later cycle reports the same fault.
pub proof fn lemma_fault_repeats(s: MachineState, randoms: Seq<u8>, random: u8)
    requires
        step_spec(s, random) is Err,
        randoms.len() > 0,
    ensures
        run_cycles(s, randoms) == Err::<MachineState, Fault>(step_spec(s, random)->Err_0),
{
    lemma_random_matters_to_random_only(s, random, randoms[0]);
}

} // verus!
