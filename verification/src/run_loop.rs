//! Pacing of the run loop: when to look at the wall clock, when a tick is
//! due and when the loop ends.
//!
//! The host runs the loop. After every instruction of the CPU it tells the
//! pacer, which asks for the wall clock once in 1000 instructions. With the
//! clock's reading the pacer decides whether a millisecond has passed since
//! the reference time; if so the host ticks the machine, and the reference
//! moves on by exactly one millisecond, so that time which the host has lost
//! is made up for by later ticks.

use vstd::prelude::*;

verus! {

/// Number of instructions between two looks at the wall clock.
pub const STEPS_PER_SAMPLE: u32 = 1000;

/// Length of a tick in microseconds.
pub const TICK_MICROS: u64 = 1000;

/// The pacer as plain values.
pub struct PaceState {
    /// Instructions run since the last look at the wall clock.
    pub steps: u32,
    /// The time up to which ticks have been delivered, in microseconds.
    pub reference: u64,
}

impl PaceState {
    pub open spec fn wf(self) -> bool {
        self.steps < STEPS_PER_SAMPLE
    }

    /// The pacer after one more instruction.
    pub open spec fn instruction_done(self) -> PaceState {
        PaceState { steps: ((self.steps + 1) % (STEPS_PER_SAMPLE as int)) as u32, ..self }
    }

    /// Whether the wall clock is to be read now.
    pub open spec fn sample_due(self) -> bool {
        self.steps == 0
    }

    /// Whether a tick is due at the time `now`.
    pub open spec fn tick_due(self, now: u64) -> bool {
        now - self.reference >= TICK_MICROS
    }

    /// The pacer after the wall clock was read as `now`.
    pub open spec fn clock_sampled(self, now: u64) -> PaceState {
        if self.tick_due(now) {
            PaceState { reference: (self.reference + TICK_MICROS) as u64, ..self }
        } else {
            self
        }
    }
}

/// Why the run loop goes on or ends.
#[derive(Clone, Copy, PartialEq, Eq, Debug, Structural)]
pub enum LoopVerdict {
    /// Run the next instruction.
    Continue,
    /// The CPU ran a HALT instruction: say so and end.
    Halted,
    /// The machine's quit flag is set: end.
    Quit,
}

/// What the run loop does after an instruction and its tick: it ends when
/// the CPU has halted, else when the machine's quit flag is set.
pub open spec fn verdict(quit: bool, halted: bool) -> LoopVerdict {
    if halted {
        LoopVerdict::Halted
    } else if quit {
        LoopVerdict::Quit
    } else {
        LoopVerdict::Continue
    }
}

/// The pacer of the run loop.
#[derive(Clone, Copy, Debug)]
pub struct RunLoop {
    steps: u32,
    reference: u64,
}

impl View for RunLoop {
    type V = PaceState;

    closed spec fn view(&self) -> PaceState {
        PaceState { steps: self.steps, reference: self.reference }
    }
}

impl RunLoop {
    #[verifier::type_invariant]
    spec fn inv(self) -> bool {
        self.steps < STEPS_PER_SAMPLE
    }

    /// A pacer that starts at the time `now`, in microseconds.
    pub fn new(now: u64) -> (pacer: RunLoop)
        ensures
            pacer@ == (PaceState { steps: 0, reference: now }),
            pacer@.wf(),
    {
        RunLoop { steps: 0, reference: now }
    }

    /// Counts one instruction and tells whether the wall clock is to be read:
    /// after every 1000th instruction.
    pub fn instruction_done(&mut self) -> (sample: bool)
        ensures
            final(self)@ == old(self)@.instruction_done(),
            sample == final(self)@.sample_due(),
            final(self)@.wf(),
    {
        proof {
            use_type_invariant(&*self);
        }
        if self.steps + 1 >= STEPS_PER_SAMPLE {
            self.steps = 0;
            true
        } else {
            self.steps = self.steps + 1;
            false
        }
    }

    /// Takes the wall clock's reading in microseconds and tells whether the
    /// machine is to be ticked: when a millisecond or more has passed since
    /// the reference time, which then moves on by one millisecond.
    pub fn clock_sampled(&mut self, now: u64) -> (tick: bool)
        ensures
            tick == old(self)@.tick_due(now),
            final(self)@ == old(self)@.clock_sampled(now),
            final(self)@.wf(),
    {
        proof {
            use_type_invariant(&*self);
        }
        if now >= self.reference && now - self.reference >= TICK_MICROS {
            self.reference = self.reference + TICK_MICROS;
            true
        } else {
            false
        }
    }

    /// What the run loop does after an instruction and its tick.
    pub fn verdict(quit: bool, halted: bool) -> (v: LoopVerdict)
        ensures
            v == verdict(quit, halted),
    {
        if halted {
            LoopVerdict::Halted
        } else if quit {
            LoopVerdict::Quit
        } else {
            LoopVerdict::Continue
        }
    }

    /// The time up to which ticks have been delivered, in microseconds.
    pub fn reference(&self) -> (reference: u64)
        ensures
            reference == self@.reference,
    {
        self.reference
    }
}

/// While the host keeps up, the reference never passes the clock: a tick
/// moves it by one millisecond, and only when at least that much has passed.
pub proof fn reference_stays_behind(pace: PaceState, now: u64)
    requires
        pace.reference <= now,
    ensures
        pace.clock_sampled(now).reference <= now,
        pace.tick_due(now) ==> pace.clock_sampled(now).reference == pace.reference + TICK_MICROS,
        !pace.tick_due(now) ==> pace.clock_sampled(now) == pace,
{
}

/// The wall clock is read once in 1000 instructions: after a look at it, the
/// next one is due after exactly 1000 more.
pub proof fn sample_every_thousand(pace: PaceState, count: nat)
    requires
        pace.wf(),
        pace.sample_due(),
        0 < count <= STEPS_PER_SAMPLE,
    ensures
        after_instructions(pace, count).sample_due() <==> count == STEPS_PER_SAMPLE,
        after_instructions(pace, count).steps == count % (STEPS_PER_SAMPLE as nat),
    decreases count,
{
    reveal_with_fuel(after_instructions, 2);
    if count > 1 {
        sample_every_thousand(pace, (count - 1) as nat);
    }
}

/// The pacer after `count` more instructions.
pub open spec fn after_instructions(pace: PaceState, count: nat) -> PaceState
    decreases count,
{
    if count == 0 {
        pace
    } else {
        after_instructions(pace, (count - 1) as nat).instruction_done()
    }
}

} // verus!
