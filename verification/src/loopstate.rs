//! The timer of a logging session, as a state machine over explicit clock
//! readings.
//!
//! A clock reading is a number of nanoseconds on a monotonic clock. The timer
//! never reads a clock itself: every operation that needs the time takes the
//! reading as an argument, so the same calls with the same readings always
//! give the same result.
//!
//! Such a clock never goes back. A reading that lies behind the timer's
//! anchor is therefore taken as the anchor itself: it adds no time and moves
//! nothing back. With that the time counted never exceeds the time that has
//! passed on the clock, whatever readings are handed in.

use vstd::prelude::*;

verus! {

/// Nanoseconds in one minute.
pub const NANOS_PER_MINUTE: u64 = 60_000_000_000;

/// What a key press asks of the timer.
#[derive(Debug, Clone, Copy, PartialEq, Eq, Structural)]
pub enum Command {
    Start,
    Pause,
    Resume,
    TogglePause,
    Quit,
}

/// Where the timer stands in its life.
#[derive(Debug, Clone, Copy, PartialEq, Eq, Structural)]
pub enum Phase {
    /// Never started.
    Idle,
    /// Started and counting.
    Active,
    /// Started, counting suspended.
    Paused,
    /// Quit: nothing changes the timer any more.
    Stopped,
}

impl Phase {
    /// Whether `command` has any effect in this phase.
    pub open spec fn accepts(self, command: Command) -> bool {
        match command {
            Command::Start => self == Phase::Idle,
            Command::Pause => self == Phase::Active,
            Command::Resume => self == Phase::Paused,
            Command::TogglePause => self == Phase::Active || self == Phase::Paused,
            Command::Quit => self != Phase::Stopped,
        }
    }

    /// The phase that `command` leads to from this one.
    pub open spec fn after(self, command: Command) -> Phase {
        if !self.accepts(command) {
            self
        } else {
            match command {
                Command::Start => Phase::Active,
                Command::Pause => Phase::Paused,
                Command::Resume => Phase::Active,
                Command::TogglePause => if self == Phase::Active {
                    Phase::Paused
                } else {
                    Phase::Active
                },
                Command::Quit => Phase::Stopped,
            }
        }
    }
}

/// The timer as a mathematical value.
pub struct Timer {
    pub phase: Phase,
    /// While active, the reading at which the interval in progress began;
    /// otherwise the reading of the last transition that looked at the clock.
    pub anchor: nat,
    /// Time banked from the intervals that have ended.
    pub accumulated: nat,
}

impl Timer {
    /// The timer before anything has happened.
    pub open spec fn fresh() -> Timer {
        Timer { phase: Phase::Idle, anchor: 0, accumulated: 0 }
    }

    /// The banked time never exceeds the reading it was banked at, and an
    /// idle timer has banked nothing.
    pub open spec fn wf(self) -> bool {
        &&& self.accumulated <= self.anchor
        &&& self.phase == Phase::Idle ==> self.anchor == 0
    }

    /// Started and not yet quit.
    pub open spec fn running(self) -> bool {
        self.phase == Phase::Active || self.phase == Phase::Paused
    }

    /// Started, with counting suspended.
    pub open spec fn paused(self) -> bool {
        self.phase == Phase::Paused
    }

    /// Length of the interval in progress at `now`: zero unless active, and
    /// zero for a reading that precedes the anchor.
    pub open spec fn unbanked(self, now: nat) -> nat {
        if self.phase == Phase::Active && now > self.anchor {
            (now - self.anchor) as nat
        } else {
            0
        }
    }

    /// Total active time as of `now`.
    pub open spec fn total(self, now: nat) -> nat {
        self.accumulated + self.unbanked(now)
    }

    /// The reading a transition at `now` leaves as anchor. The clock is
    /// monotonic, so a reading below the anchor is taken as the anchor itself.
    pub open spec fn advance(self, now: nat) -> nat {
        if now > self.anchor {
            now
        } else {
            self.anchor
        }
    }

    /// Ends the interval in progress at `now` and enters `phase`.
    pub open spec fn bank(self, now: nat, phase: Phase) -> Timer {
        Timer { phase, anchor: self.advance(now), accumulated: self.total(now) }
    }

    /// An idle timer becomes active with its anchor at `now`; any other
    /// stays as it is.
    pub open spec fn start(self, now: nat) -> Timer {
        if self.phase == Phase::Idle {
            Timer { phase: Phase::Active, anchor: now, accumulated: self.accumulated }
        } else {
            self
        }
    }

    /// An active timer banks the interval in progress and is paused; any
    /// other stays as it is.
    pub open spec fn pause(self, now: nat) -> Timer {
        if self.phase == Phase::Active {
            self.bank(now, Phase::Paused)
        } else {
            self
        }
    }

    /// A paused timer becomes active with its anchor at `now`, banking
    /// nothing; any other stays as it is.
    pub open spec fn resume(self, now: nat) -> Timer {
        if self.phase == Phase::Paused {
            Timer { phase: Phase::Active, anchor: self.advance(now), accumulated: self.accumulated }
        } else {
            self
        }
    }

    /// Pause for an active timer, resume for a paused one; any other stays
    /// as it is.
    pub open spec fn toggle_pause(self, now: nat) -> Timer {
        match self.phase {
            Phase::Active => self.pause(now),
            Phase::Paused => self.resume(now),
            _ => self,
        }
    }

    /// An active timer banks the interval in progress and is stopped; an
    /// idle or a paused one is stopped with nothing banked; a stopped one
    /// stays as it is.
    pub open spec fn quit(self, now: nat) -> Timer {
        match self.phase {
            Phase::Active => self.bank(now, Phase::Stopped),
            Phase::Stopped => self,
            _ => Timer { phase: Phase::Stopped, ..self },
        }
    }

    /// Whether `command` has any effect on the timer as it stands.
    pub open spec fn accepts(self, command: Command) -> bool {
        self.phase.accepts(command)
    }

    /// The phase that `command` leads to.
    pub open spec fn next_phase(self, command: Command) -> Phase {
        self.phase.after(command)
    }

    /// The timer after `command` arrives at `now`.
    pub open spec fn apply(self, command: Command, now: nat) -> Timer {
        match command {
            Command::Start => self.start(now),
            Command::Pause => self.pause(now),
            Command::Resume => self.resume(now),
            Command::TogglePause => self.toggle_pause(now),
            Command::Quit => self.quit(now),
        }
    }
}

/// Every command keeps the timer well formed, never lowers what is banked,
/// and adds nothing to the total at the reading it arrives at: time passes
/// between commands, not in them.
pub proof fn lemma_apply_preserves(timer: Timer, command: Command, now: nat)
    requires
        timer.wf(),
    ensures
        timer.apply(command, now).wf(),
        timer.apply(command, now).accumulated >= timer.accumulated,
        timer.apply(command, now).total(now) == timer.total(now),
{
}

/// A command that the timer does not accept as it stands changes nothing,
/// whatever the reading, and the phase a command leads to does not depend
/// on the reading at all.
pub proof fn lemma_commands_out_of_place(timer: Timer, command: Command, now: nat)
    ensures
        !timer.accepts(command) ==> timer.apply(command, now) == timer,
        timer.apply(command, now).phase == timer.next_phase(command),
{
}

/// The total never exceeds the time on the clock: the reading it is asked
/// at, or the anchor where that is later.
pub proof fn lemma_total_within_clock(timer: Timer, now: nat)
    requires
        timer.wf(),
    ensures
        timer.total(now) <= timer.advance(now),
{
}

/// Pausing twice in a row banks the interval in progress once: the second
/// call changes nothing, whatever its reading.
pub proof fn lemma_pause_twice_banks_once(timer: Timer, first: nat, second: nat)
    ensures
        timer.pause(first).accumulated == timer.accumulated + timer.unbanked(first),
        timer.pause(first).pause(second) == timer.pause(first),
{
}

/// Quitting banks the interval in progress once. A second quit changes
/// nothing, the total stays what it was at the first, and after a pause a
/// quit banks nothing more.
pub proof fn lemma_quit_banks_once(timer: Timer, first: nat, second: nat)
    ensures
        timer.quit(first).accumulated == timer.accumulated + timer.unbanked(first),
        timer.quit(first).quit(second) == timer.quit(first),
        timer.quit(first).total(second) == timer.total(first),
        timer.pause(first).quit(second).accumulated == timer.pause(first).accumulated,
{
}

/// No command changes a stopped timer.
pub proof fn lemma_stopped_is_final(timer: Timer, command: Command, now: nat)
    requires
        timer.phase == Phase::Stopped,
    ensures
        timer.apply(command, now) == timer,
{
}

/// Reading the total changes nothing, so the same reading gives the same
/// total again, and a later reading never gives less.
pub proof fn lemma_total_never_decreases(timer: Timer, earlier: nat, later: nat)
    requires
        earlier <= later,
    ensures
        timer.total(earlier) <= timer.total(later),
        timer.total(earlier) == timer.total(later) <==> timer.unbanked(earlier) == timer.unbanked(
            later,
        ),
{
}

/// The timer a session loop owns.
#[derive(Debug, Clone, Copy)]
pub struct State {
    phase: Phase,
    anchor: u64,
    accumulated: u64,
}

impl View for State {
    type V = Timer;

    closed spec fn view(&self) -> Timer {
        Timer {
            phase: self.phase,
            anchor: self.anchor as nat,
            accumulated: self.accumulated as nat,
        }
    }
}

impl State {
    /// Holds of every value of this type.
    #[verifier::type_invariant]
    pub open spec fn inv(self) -> bool {
        self@.wf()
    }

    /// An idle timer with nothing banked.
    pub fn new() -> (state: State)
        ensures
            state@ == Timer::fresh(),
    {
        State { phase: Phase::Idle, anchor: 0, accumulated: 0 }
    }

    /// Where the timer stands.
    pub fn phase(&self) -> (phase: Phase)
        ensures
            phase == self@.phase,
    {
        self.phase
    }

    /// Whether the timer has been started and not yet quit.
    pub fn is_running(&self) -> (running: bool)
        ensures
            running == self@.running(),
    {
        self.phase == Phase::Active || self.phase == Phase::Paused
    }

    /// Whether counting is suspended.
    pub fn is_paused(&self) -> (paused: bool)
        ensures
            paused == self@.paused(),
    {
        self.phase == Phase::Paused
    }

    /// Total active time as of `now`, in nanoseconds. Reads only: the
    /// interval in progress is added to the result, not to the timer.
    pub fn total_elapsed(&self, now: u64) -> (total: u64)
        ensures
            total == self@.total(now as nat),
    {
        proof {
            use_type_invariant(self);
        }
        if self.phase == Phase::Active && now > self.anchor {
            self.accumulated + (now - self.anchor)
        } else {
            self.accumulated
        }
    }

    /// Whole minutes of active time as of `now`.
    pub fn get_total_minutes(&self, now: u64) -> (minutes: u64)
        ensures
            minutes == self@.total(now as nat) / (NANOS_PER_MINUTE as nat),
    {
        self.total_elapsed(now) / NANOS_PER_MINUTE
    }

    /// Starts an idle timer at `now`. Anything else is left as it is.
    pub fn start(&mut self, now: u64)
        ensures
            final(self)@ == old(self)@.start(now as nat),
    {
        proof {
            use_type_invariant(&*self);
        }
        if self.phase == Phase::Idle {
            *self = State { phase: Phase::Active, anchor: now, accumulated: self.accumulated };
        }
    }

    /// Banks the interval in progress and suspends counting. Leaves a timer
    /// that is not active as it is, so that no interval is banked twice.
    pub fn pause(&mut self, now: u64)
        ensures
            final(self)@ == old(self)@.pause(now as nat),
    {
        if self.phase == Phase::Active {
            self.bank(now, Phase::Paused);
        }
    }

    /// Takes up counting again at `now`. Leaves a timer that is not paused as
    /// it is.
    pub fn resume(&mut self, now: u64)
        ensures
            final(self)@ == old(self)@.resume(now as nat),
    {
        proof {
            use_type_invariant(&*self);
        }
        if self.phase == Phase::Paused {
            let anchor: u64 = if now > self.anchor { now } else { self.anchor };
            *self = State { phase: Phase::Active, anchor, accumulated: self.accumulated };
        }
    }

    /// Pauses an active timer, resumes a paused one, and leaves any other as
    /// it is.
    pub fn toggle_pause(&mut self, now: u64)
        ensures
            final(self)@ == old(self)@.toggle_pause(now as nat),
    {
        match self.phase {
            Phase::Active => self.pause(now),
            Phase::Paused => self.resume(now),
            _ => {},
        }
    }

    /// Stops the timer for good. An interval in progress is banked first; a
    /// paused or idle timer has none, and a stopped one is left as it is.
    pub fn quit(&mut self, now: u64)
        ensures
            final(self)@ == old(self)@.quit(now as nat),
    {
        proof {
            use_type_invariant(&*self);
        }
        match self.phase {
            Phase::Active => self.bank(now, Phase::Stopped),
            Phase::Stopped => {},
            _ => {
                *self = State {
                    phase: Phase::Stopped,
                    anchor: self.anchor,
                    accumulated: self.accumulated,
                };
            },
        }
    }

    /// Hands `command`, which arrived at `now`, to the operation it names.
    pub fn apply(&mut self, command: Command, now: u64)
        ensures
            final(self)@ == old(self)@.apply(command, now as nat),
    {
        match command {
            Command::Start => self.start(now),
            Command::Pause => self.pause(now),
            Command::Resume => self.resume(now),
            Command::TogglePause => self.toggle_pause(now),
            Command::Quit => self.quit(now),
        }
    }

    fn bank(&mut self, now: u64, phase: Phase)
        requires
            phase != Phase::Idle,
        ensures
            final(self)@ == old(self)@.bank(now as nat, phase),
    {
        proof {
            use_type_invariant(&*self);
        }
        let total: u64 = self.total_elapsed(now);
        let anchor: u64 = if now > self.anchor { now } else { self.anchor };
        *self = State { phase, anchor, accumulated: total };
    }
}

} // verus!
