//! The machine as its host drives it: paced by update and render events,
//! fed by the keyboard, with a pause switch and a trail of the instructions
//! carried out.
//!
//! The host owns the window and the clock. It turns what happens there into
//! events, hands each to the console, and does what the console answers.

use vstd::prelude::*;
use crate::fault::Fault;
use crate::history::{recorded, History};
use crate::keypad::{key_role, key_role_of, KeyRole};
use crate::machine::Machine;
use crate::model::{acknowledged, load_spec, initial_state, set_key_spec, tick_spec, MachineState};
use crate::random::random_byte;
use crate::semantics::{draws_random, fetch_spec, run_spec, step_spec};

verus! {

/// What the host reports to the console.
#[derive(Clone, Copy, Debug, PartialEq, Eq, Structural)]
pub enum HostEvent {
    /// Time for one machine cycle.
    Update,
    /// Time to present a frame.
    Render,
    /// The host key with this key code went down.
    KeyDown { code: i32 },
    /// The host key with this key code went up.
    KeyUp { code: i32 },
}

/// What the console asks of the host in answer to an event.
#[derive(Clone, Copy, Debug, PartialEq, Eq, Structural)]
pub enum Directive {
    /// Nothing.
    Idle,
    /// Present the display as it is now, with the sound indicator shown if
    /// `sound` is set.
    Present { sound: bool },
    /// Report the fault; the machine will not run again.
    Halt { fault: Fault },
}

/// A snapshot of the console.
#[verifier::ext_equal]
pub struct ConsoleState {
    pub machine: MachineState,
    /// The instruction words carried out, oldest first, twenty at most.
    pub trail: Seq<u16>,
    pub paused: bool,
    /// The fault that stopped the machine, if one did.
    pub fault: Option<Fault>,
}

impl ConsoleState {
    /// The machine is well formed and the trail holds twenty words at most.
    pub open spec fn wf(self) -> bool {
        self.machine.wf() && self.trail.len() <= 20
    }

    /// Whether an update event runs a machine cycle.
    pub open spec fn runs(self) -> bool {
        !self.paused && !self.machine.awaiting_key && self.fault is None
    }
}

/// An update: one machine cycle, unless the console is paused, the machine
/// waits for a key or has faulted. The word at the program counter goes on
/// the trail before it is carried out. A fault stops the machine for good.
pub open spec fn update_spec(c: ConsoleState, random: u8) -> (ConsoleState, Directive) {
    if !c.runs() {
        (c, Directive::Idle)
    } else {
        match fetch_spec(c.machine) {
            Err(fault) => (ConsoleState { fault: Some(fault), ..c }, Directive::Halt { fault }),
            Ok(opcode) => {
                let trail = recorded(c.trail, opcode);
                match run_spec(c.machine, opcode, random) {
                    Ok(machine) => (ConsoleState { machine, trail, ..c }, Directive::Idle),
                    Err(fault) => (
                        ConsoleState { trail, fault: Some(fault), ..c },
                        Directive::Halt { fault },
                    ),
                }
            },
        }
    }
}

/// A render: unless the console is paused, the host is to present the
/// display, with the sound indicator as the sound timer stands before this
/// frame's tick; then the redraw request is withdrawn and the timers tick.
pub open spec fn render_spec(c: ConsoleState) -> (ConsoleState, Directive) {
    if c.paused {
        (c, Directive::Idle)
    } else {
        (
            ConsoleState { machine: tick_spec(acknowledged(c.machine)), ..c },
            Directive::Present { sound: c.machine.sound_active() },
        )
    }
}

/// A host key going down: a pad key is pressed on the machine, the space bar
/// flips the pause switch, any other key does nothing.
pub open spec fn key_down_spec(c: ConsoleState, code: i32) -> ConsoleState {
    match key_role_of(code) {
        KeyRole::Pad(key) => ConsoleState { machine: set_key_spec(c.machine, key, true), ..c },
        KeyRole::Pause => ConsoleState { paused: !c.paused, ..c },
        KeyRole::Unused => c,
    }
}

/// A host key going up: a pad key is released on the machine, any other key
/// does nothing.
pub open spec fn key_up_spec(c: ConsoleState, code: i32) -> ConsoleState {
    match key_role_of(code) {
        KeyRole::Pad(key) => ConsoleState { machine: set_key_spec(c.machine, key, false), ..c },
        _ => c,
    }
}

/// The console after `event`, and what it asks of the host. `random` is the
/// byte for the random instruction, should this event carry one out.
pub open spec fn handle_spec(c: ConsoleState, event: HostEvent, random: u8) -> (
    ConsoleState,
    Directive,
) {
    match event {
        HostEvent::Update => update_spec(c, random),
        HostEvent::Render => render_spec(c),
        HostEvent::KeyDown { code } => (key_down_spec(c, code), Directive::Idle),
        HostEvent::KeyUp { code } => (key_up_spec(c, code), Directive::Idle),
    }
}

/// Whether handling `event` consumes a random byte.
pub open spec fn event_draws_random(c: ConsoleState, event: HostEvent) -> bool {
    event == HostEvent::Update && c.runs() && draws_random(c.machine)
}

/// A console fresh from loading `image`: the machine reset and loaded,
/// running, with an empty trail.
pub open spec fn start_spec(image: Seq<u8>) -> Result<ConsoleState, Fault> {
    match load_spec(initial_state(), image) {
        Ok(machine) => Ok(
            ConsoleState { machine, trail: Seq::empty(), paused: false, fault: None },
        ),
        Err(fault) => Err(fault),
    }
}

/// A machine together with what the host needs around it.
#[derive(Clone, Debug, PartialEq, Eq)]
pub struct Console {
    pub(crate) machine: Machine,
    pub(crate) history: History,
    pub(crate) paused: bool,
    pub(crate) fault: Option<Fault>,
}

impl Console {
    /// The snapshot that this console holds.
    pub open(crate) spec fn view(&self) -> ConsoleState {
        ConsoleState {
            machine: self.machine@,
            trail: self.history@,
            paused: self.paused,
            fault: self.fault,
        }
    }

    /// Resets a machine and loads `image` into it. An image of more than
    /// 3584 bytes is refused.
    pub fn start(image: &[u8]) -> (res: Result<Console, Fault>)
        ensures
            match start_spec(image@) {
                Ok(state) => res matches Ok(console) && console@ == state && console@.wf(),
                Err(fault) => res matches Err(f) && f == fault,
            },
    {
        let mut machine = Machine::reset();
        match machine.load(image) {
            Ok(()) => Ok(Console { machine, history: History::new(), paused: false, fault: None }),
            Err(fault) => Err(fault),
        }
    }

    /// The machine.
    pub fn machine(&self) -> (machine: &Machine)
        ensures
            machine@ == self@.machine,
    {
        &self.machine
    }

    /// The instruction words carried out, oldest first, twenty at most.
    pub fn trail(&self) -> (words: &[u16])
        ensures
            words@ == self@.trail,
    {
        self.history.words()
    }

    /// Whether the console is paused.
    pub fn paused(&self) -> (paused: bool)
        ensures
            paused == self@.paused,
    {
        self.paused
    }

    /// The fault that stopped the machine, if one did.
    pub fn fault(&self) -> (fault: Option<Fault>)
        ensures
            fault == self@.fault,
    {
        self.fault
    }

    /// Whether handling `event` consumes a random byte.
    pub fn event_draws_random(&self, event: HostEvent) -> (drawn: bool)
        ensures
            drawn == event_draws_random(self@, event),
    {
        match event {
            HostEvent::Update => !self.paused && self.fault.is_none()
                && self.machine.draws_random(),
            _ => false,
        }
    }

    /// One update event.
    fn update(&mut self, random: u8) -> (directive: Directive)
        requires
            old(self)@.wf(),
        ensures
            final(self)@.wf(),
            (final(self)@, directive) == update_spec(old(self)@, random),
    {
        if self.paused || self.machine.awaiting_key() || self.fault.is_some() {
            return Directive::Idle;
        }
        match self.machine.fetch() {
            Ok(opcode) => {
                self.history.record(opcode);
            },
            Err(fault) => {},
        }
        match self.machine.step_with(random) {
            Ok(()) => Directive::Idle,
            Err(fault) => {
                self.fault = Some(fault);
                Directive::Halt { fault }
            },
        }
    }

    /// One render event.
    fn render(&mut self) -> (directive: Directive)
        requires
            old(self)@.wf(),
        ensures
            final(self)@.wf(),
            (final(self)@, directive) == render_spec(old(self)@),
    {
        if self.paused {
            return Directive::Idle;
        }
        let sound: bool = self.machine.sound_active();
        self.machine.acknowledge_redraw();
        self.machine.tick_timers();
        Directive::Present { sound }
    }

    /// Host key `code` went down.
    fn key_down(&mut self, code: i32)
        requires
            old(self)@.wf(),
        ensures
            final(self)@.wf(),
            final(self)@ == key_down_spec(old(self)@, code),
    {
        match key_role(code) {
            KeyRole::Pad(key) => {
                self.machine.set_key(key, true);
            },
            KeyRole::Pause => {
                self.paused = !self.paused;
            },
            KeyRole::Unused => {},
        }
    }

    /// Host key `code` went up.
    fn key_up(&mut self, code: i32)
        requires
            old(self)@.wf(),
        ensures
            final(self)@.wf(),
            final(self)@ == key_up_spec(old(self)@, code),
    {
        match key_role(code) {
            KeyRole::Pad(key) => {
                self.machine.set_key(key, false);
            },
            _ => {},
        }
    }

    /// Handles one event, with the random byte supplied by the caller.
    /// `random` is read only if the event carries out a random instruction.
    pub fn handle_with(&mut self, event: HostEvent, random: u8) -> (directive: Directive)
        requires
            old(self)@.wf(),
        ensures
            final(self)@.wf(),
            (final(self)@, directive) == handle_spec(old(self)@, event, random),
    {
        match event {
            HostEvent::Update => self.update(random),
            HostEvent::Render => self.render(),
            HostEvent::KeyDown { code } => {
                self.key_down(code);
                Directive::Idle
            },
            HostEvent::KeyUp { code } => {
                self.key_up(code);
                Directive::Idle
            },
        }
    }

    /// Handles one event. A random instruction gets its byte from the
    /// generator, so the console ends as `handle_with` leaves it for some
    /// byte below 255; any other event ends as `handle_with` leaves it for
    /// every byte.
    pub fn handle(&mut self, event: HostEvent) -> (directive: Directive)
        requires
            old(self)@.wf(),
        ensures
            final(self)@.wf(),
            exists|random: u8|
                random < 255 && (final(self)@, directive) == #[trigger] handle_spec(
                    old(self)@,
                    event,
                    random,
                ),
            !event_draws_random(old(self)@, event) ==> forall|random: u8|
                (final(self)@, directive) == #[trigger] handle_spec(old(self)@, event, random),
    {
        let random: u8 = if self.event_draws_random(event) {
            random_byte()
        } else {
            0
        };
        let directive = self.handle_with(event, random);
        proof {
            if !event_draws_random(old(self)@, event) {
                assert forall|other: u8|
                    (self@, directive) == #[trigger] handle_spec(old(self)@, event, other) by {
                    lemma_random_matters_to_random_events_only(old(self)@, event, random, other);
                }
            }
        }
        directive
    }
}

/// The random byte matters only to an event that carries out a random
/// instruction: any other event ends the same whatever byte it is given.
pub proof fn lemma_random_matters_to_random_events_only(
    c: ConsoleState,
    event: HostEvent,
    a: u8,
    b: u8,
)
    requires
        !event_draws_random(c, event),
    ensures
        handle_spec(c, event, a) == handle_spec(c, event, b),
{
}

/// A paused console lets update and render events pass: no cycle runs, no
/// timer ticks, nothing is presented. Keys still reach the machine.
pub proof fn lemma_paused_console_stands_still(c: ConsoleState, random: u8)
    requires
        c.paused,
    ensures
        handle_spec(c, HostEvent::Update, random) == (c, Directive::Idle),
        handle_spec(c, HostEvent::Render, random) == (c, Directive::Idle),
{
}

/// A console whose machine has faulted runs no further cycle.
pub proof fn lemma_faulted_console_runs_no_cycle(c: ConsoleState, random: u8)
    requires
        c.fault is Some,
    ensures
        handle_spec(c, HostEvent::Update, random) == (c, Directive::Idle),
{
}

/// Two presses of the space bar leave the console as it was.
pub proof fn lemma_pause_twice_resumes(c: ConsoleState)
    ensures
        key_down_spec(key_down_spec(c, 0x20), 0x20) == c,
{
}

/// While the console runs, an update does to the machine what one machine
/// cycle does.
pub proof fn lemma_update_is_one_cycle(c: ConsoleState, random: u8)
    requires
        c.runs(),
    ensures
        match step_spec(c.machine, random) {
            Ok(machine) => update_spec(c, random).0.machine == machine && update_spec(
                c,
                random,
            ).1 == Directive::Idle,
            Err(fault) => update_spec(c, random).0.machine == c.machine && update_spec(
                c,
                random,
            ).1 == (Directive::Halt { fault }),
        },
{
}

} // verus!
