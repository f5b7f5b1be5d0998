//! The timer bound to the process clock: the same state machine as
//! [`State`], with every reading taken from the clock at the moment of the
//! call.

use crate::loopstate::{Command, Phase, State, Timer, NANOS_PER_MINUTE};
use tokio::time::Instant;
use vstd::prelude::*;

verus! {

/// `tokio::time::Instant`: a moment on tokio's clock, of which nothing is
/// known here.
#[verifier::external_type_specification]
#[verifier::external_body]
pub struct ExInstant(tokio::time::Instant);

/// `tokio::time::Instant::now`: the present moment on tokio's clock. Nothing
/// is claimed of the value.
#[verifier::external_body]
fn clock_now() -> (now: Instant) {
    Instant::now()
}

/// `tokio::time::Instant::elapsed`, in nanoseconds: the time since `origin`
/// as the clock has it now. Nothing is claimed of the value; two calls may
/// give any two numbers.
#[verifier::external_body]
fn nanos_since(origin: &Instant) -> (nanos: u128) {
    origin.elapsed().as_nanos()
}

/// The commands of the clock-bound timer: those of every timer.
pub type LogCommand = Command;

/// A timer that reads the clock itself.
pub struct LogState {
    /// The moment from which readings are counted.
    origin: Instant,
    timer: State,
}

impl View for LogState {
    type V = Timer;

    closed spec fn view(&self) -> Timer {
        self.timer@
    }
}

impl LogState {
    /// An idle timer with nothing banked, its clock set to zero now.
    pub fn new() -> (state: LogState)
        ensures
            state@ == Timer::fresh(),
    {
        LogState { origin: clock_now(), timer: State::new() }
    }

    /// The clock reading of this moment: nanoseconds since the timer was
    /// made, held at the largest number that fits.
    fn reading(&self) -> (now: u64) {
        to_reading(nanos_since(&self.origin))
    }

    /// Starts an idle timer at the present reading.
    pub fn start(&mut self)
        ensures
            exists|now: nat| final(self)@ == #[trigger] old(self)@.start(now),
            final(self)@.phase == old(self)@.next_phase(Command::Start),
            !old(self)@.accepts(Command::Start) ==> final(self)@ == old(self)@,
            final(self)@.accumulated >= old(self)@.accumulated,
            final(self)@.wf(),
    {
        proof {
            use_type_invariant(&self.timer);
        }
        let now: u64 = self.reading();
        self.timer.start(now);
        proof {
            use_type_invariant(&self.timer);
            assert(self@ == old(self)@.start(now as nat));
        }
    }

    /// Banks the interval in progress up to the present reading and suspends
    /// counting; changes nothing unless the timer is active.
    pub fn pause(&mut self)
        ensures
            exists|now: nat| final(self)@ == #[trigger] old(self)@.pause(now),
            final(self)@.phase == old(self)@.next_phase(Command::Pause),
            !old(self)@.accepts(Command::Pause) ==> final(self)@ == old(self)@,
            final(self)@.accumulated >= old(self)@.accumulated,
            final(self)@.wf(),
    {
        proof {
            use_type_invariant(&self.timer);
        }
        let now: u64 = self.reading();
        self.timer.pause(now);
        proof {
            use_type_invariant(&self.timer);
            assert(self@ == old(self)@.pause(now as nat));
        }
    }

    /// Takes up counting again from the present reading; changes nothing
    /// unless the timer is paused.
    pub fn resume(&mut self)
        ensures
            exists|now: nat| final(self)@ == #[trigger] old(self)@.resume(now),
            final(self)@.phase == old(self)@.next_phase(Command::Resume),
            !old(self)@.accepts(Command::Resume) ==> final(self)@ == old(self)@,
            final(self)@.accumulated >= old(self)@.accumulated,
            final(self)@.wf(),
    {
        proof {
            use_type_invariant(&self.timer);
        }
        let now: u64 = self.reading();
        self.timer.resume(now);
        proof {
            use_type_invariant(&self.timer);
            assert(self@ == old(self)@.resume(now as nat));
        }
    }

    /// Pauses an active timer, resumes a paused one, at the present reading.
    pub fn toggle_pause(&mut self)
        ensures
            exists|now: nat| final(self)@ == #[trigger] old(self)@.toggle_pause(now),
            final(self)@.phase == old(self)@.next_phase(Command::TogglePause),
            !old(self)@.accepts(Command::TogglePause) ==> final(self)@ == old(self)@,
            final(self)@.accumulated >= old(self)@.accumulated,
            final(self)@.wf(),
    {
        proof {
            use_type_invariant(&self.timer);
        }
        let now: u64 = self.reading();
        self.timer.toggle_pause(now);
        proof {
            use_type_invariant(&self.timer);
            assert(self@ == old(self)@.toggle_pause(now as nat));
        }
    }

    /// Stops the timer for good, banking the interval in progress up to the
    /// present reading.
    pub fn quit(&mut self)
        ensures
            exists|now: nat| final(self)@ == #[trigger] old(self)@.quit(now),
            final(self)@.phase == old(self)@.next_phase(Command::Quit),
            !old(self)@.accepts(Command::Quit) ==> final(self)@ == old(self)@,
            final(self)@.accumulated >= old(self)@.accumulated,
            final(self)@.wf(),
    {
        proof {
            use_type_invariant(&self.timer);
        }
        let now: u64 = self.reading();
        self.timer.quit(now);
        proof {
            use_type_invariant(&self.timer);
            assert(self@ == old(self)@.quit(now as nat));
        }
    }

    /// Hands `command` to the operation it names, at the present reading.
    pub fn apply(&mut self, command: LogCommand)
        ensures
            exists|now: nat| final(self)@ == #[trigger] old(self)@.apply(command, now),
            final(self)@.phase == old(self)@.next_phase(command),
            !old(self)@.accepts(command) ==> final(self)@ == old(self)@,
            final(self)@.accumulated >= old(self)@.accumulated,
            final(self)@.wf(),
    {
        proof {
            use_type_invariant(&self.timer);
        }
        let now: u64 = self.reading();
        self.timer.apply(command, now);
        proof {
            use_type_invariant(&self.timer);
            assert(self@ == old(self)@.apply(command, now as nat));
        }
    }

    /// Where the timer stands.
    pub fn phase(&self) -> (phase: Phase)
        ensures
            phase == self@.phase,
    {
        self.timer.phase()
    }

    /// Whether counting is suspended.
    pub fn is_paused(&self) -> (paused: bool)
        ensures
            paused == self@.paused(),
    {
        self.timer.is_paused()
    }

    /// Whether the timer has been started and not yet quit.
    pub fn is_running(&self) -> (running: bool)
        ensures
            running == self@.running(),
    {
        self.timer.is_running()
    }

    /// Total active time as of the present reading, in nanoseconds. The
    /// timer is not changed.
    pub fn total_elapsed(&self) -> (total: u64)
        ensures
            exists|now: nat| total == #[trigger] self@.total(now),
            total >= self@.accumulated,
            !(self@.running() && !self@.paused()) ==> total == self@.accumulated,
    {
        let now: u64 = self.reading();
        let total: u64 = self.timer.total_elapsed(now);
        proof {
            assert(total == self@.total(now as nat));
        }
        total
    }

    /// Whole minutes of active time as of the present reading.
    pub fn get_total_minutes(&self) -> (minutes: u64)
        ensures
            exists|now: nat| minutes == #[trigger] self@.total(now) / (NANOS_PER_MINUTE as nat),
            !(self@.running() && !self@.paused()) ==> minutes == self@.accumulated / (
            NANOS_PER_MINUTE as nat),
    {
        let now: u64 = self.reading();
        let minutes: u64 = self.timer.get_total_minutes(now);
        proof {
            assert(minutes == self@.total(now as nat) / (NANOS_PER_MINUTE as nat));
        }
        minutes
    }
}

/// The clock reading that a time of `nanos` nanoseconds comes to: the
/// number itself, or the largest reading where it is too large for one.
pub open spec fn reading_of(nanos: u128) -> u64 {
    if nanos > u64::MAX {
        u64::MAX
    } else {
        nanos as u64
    }
}

/// Turns a time in nanoseconds, as the clock gives it, into a reading.
pub fn to_reading(nanos: u128) -> (now: u64)
    ensures
        now == reading_of(nanos),
{
    if nanos > u64::MAX as u128 {
        u64::MAX
    } else {
        nanos as u64
    }
}

} // verus!
