//! The decisions of an interactive logging session: which key means which
//! command, what each event does to the timer, what the status line shows,
//! and whether the time counted at the end is worth logging.
//!
//! The session itself waits on nothing. Whoever runs it reads the keys, keeps
//! the tick, hands each event in with the clock reading at which it happened,
//! and carries out the action that comes back.

use crate::loopstate::{Command, State, Timer, NANOS_PER_MINUTE};
use vstd::prelude::*;

verus! {

/// The least time worth logging: a hundredth of an hour, in nanoseconds.
pub const LOGGING_THRESHOLD: u64 = 36_000_000_000;

/// Commands that may wait between the key reader and the session.
pub const QUEUE_CAPACITY: usize = 100;

/// Milliseconds between two redraws of the status line.
pub const TICK_MILLIS: u64 = 50;

/// Longest row of marks beside the running counter.
pub const MARKS: u64 = 20;

/// A key press, as far as the session tells keys apart.
#[derive(Debug, Clone, Copy, PartialEq, Eq, Structural)]
pub enum Key {
    /// A plain character.
    Char(char),
    /// A character typed with the control key held.
    Ctrl(char),
    /// Any other key.
    Other,
}

/// What reaches the session loop.
#[derive(Debug, Clone, Copy, PartialEq, Eq, Structural)]
pub enum Event {
    /// The key reader handed on a command.
    Command(Command),
    /// The key reader is gone and will send nothing more.
    Closed,
    /// The redraw period has passed.
    Tick,
}

/// What the status line shows.
#[derive(Debug, Clone, Copy, PartialEq, Eq, Structural)]
pub enum Status {
    /// Counting is suspended at `elapsed` nanoseconds.
    Paused { elapsed: u64 },
    /// Counting: whole minutes so far, and how many marks to draw after them.
    Counting { minutes: u64, marks: u64 },
}

/// What the loop does after an event.
#[derive(Debug, Clone, Copy, PartialEq, Eq, Structural)]
pub enum Action {
    /// Nothing; wait for the next event.
    Wait,
    /// Rewrite the status line, then wait for the next event.
    Redraw(Status),
    /// Leave the loop.
    Stop,
}

/// How a session ends.
#[derive(Debug, Clone, Copy, PartialEq, Eq, Structural)]
pub enum Outcome {
    /// This many nanoseconds go to the log.
    Logged(u64),
    /// Too little time was counted to log any.
    Nothing,
}

/// The command a key stands for, if any.
pub open spec fn key_command(key: Key) -> Option<Command> {
    match key {
        Key::Char('s') => Some(Command::Start),
        Key::Char('p') => Some(Command::Pause),
        Key::Char('r') => Some(Command::Resume),
        Key::Char(' ') => Some(Command::TogglePause),
        Key::Char('q') => Some(Command::Quit),
        Key::Ctrl('c') => Some(Command::Quit),
        _ => None,
    }
}

/// Maps a key to its command; keys without one are ignored.
pub fn command_for(key: Key) -> (command: Option<Command>)
    ensures
        command == key_command(key),
{
    match key {
        Key::Char(c) => {
            if c == 's' {
                Some(Command::Start)
            } else if c == 'p' {
                Some(Command::Pause)
            } else if c == 'r' {
                Some(Command::Resume)
            } else if c == ' ' {
                Some(Command::TogglePause)
            } else if c == 'q' {
                Some(Command::Quit)
            } else {
                None
            }
        },
        Key::Ctrl(c) => {
            if c == 'c' {
                Some(Command::Quit)
            } else {
                None
            }
        },
        Key::Other => None,
    }
}

/// Whether the key reader stops after trying to hand on `command`: it does
/// once the session no longer listens, and after its own quit.
pub fn reader_stops(command: Command, delivered: bool) -> (stops: bool)
    ensures
        stops == (!delivered || command == Command::Quit),
{
    !delivered || command == Command::Quit
}

/// Whether `elapsed` nanoseconds are worth logging.
pub open spec fn worth_logging(elapsed: nat) -> bool {
    elapsed >= LOGGING_THRESHOLD
}

/// The session as a mathematical value.
pub struct Model {
    pub timer: Timer,
    /// Redraws of the running counter so far, starting over after the
    /// largest number that fits.
    pub counter: nat,
}

impl Model {
    /// A session in which nothing has happened.
    pub open spec fn fresh() -> Model {
        Model { timer: Timer::fresh(), counter: 0 }
    }

    /// The timer is well formed and the counter fits.
    pub open spec fn wf(self) -> bool {
        self.timer.wf() && self.counter <= u64::MAX
    }

    /// The counter after one more redraw of the running counter.
    pub open spec fn next_counter(self) -> nat {
        if self.counter == u64::MAX {
            1
        } else {
            self.counter + 1
        }
    }

    /// Whether a tick draws the running counter.
    pub open spec fn counts(self) -> bool {
        self.timer.running() && !self.timer.paused()
    }

    /// The session after `event` at `now`. Only a command touches the timer;
    /// a tick moves nothing but the redraw counter.
    pub open spec fn after(self, event: Event, now: nat) -> Model {
        match event {
            Event::Command(command) => Model { timer: self.timer.apply(command, now), ..self },
            Event::Closed => self,
            Event::Tick => if self.counts() {
                Model { counter: self.next_counter(), ..self }
            } else {
                self
            },
        }
    }

    /// The status line a tick at `now` draws, if it draws one.
    pub open spec fn status(self, now: nat) -> Option<Status> {
        if !self.timer.running() {
            None
        } else if self.timer.paused() {
            Some(Status::Paused { elapsed: self.timer.total(now) as u64 })
        } else {
            Some(
                Status::Counting {
                    minutes: (self.timer.total(now) / (NANOS_PER_MINUTE as nat)) as u64,
                    marks: (self.next_counter() % (MARKS as nat) + 1) as u64,
                },
            )
        }
    }

    /// What the loop does after `event` at `now`.
    pub open spec fn action(self, event: Event, now: nat) -> Action {
        match event {
            Event::Command(Command::Quit) => Action::Stop,
            Event::Command(_) => Action::Wait,
            Event::Closed => Action::Stop,
            Event::Tick => match self.status(now) {
                Some(status) => Action::Redraw(status),
                None => Action::Wait,
            },
        }
    }

    /// How the session ends when the loop is left at `now`.
    pub open spec fn outcome(self, now: nat) -> Outcome {
        if worth_logging(self.timer.total(now)) {
            Outcome::Logged(self.timer.total(now) as u64)
        } else {
            Outcome::Nothing
        }
    }
}

/// A tick changes nothing about the timer, and so nothing about the time it
/// reports, however many ticks arrive.
pub proof fn lemma_tick_leaves_timer(model: Model, now: nat, later: nat)
    ensures
        model.after(Event::Tick, now).timer == model.timer,
        model.after(Event::Tick, now).outcome(later) == model.outcome(later),
{
}

/// What a session loop owns: the timer and the redraw counter.
pub struct Session {
    timer: State,
    counter: u64,
}

impl View for Session {
    type V = Model;

    closed spec fn view(&self) -> Model {
        Model { timer: self.timer@, counter: self.counter as nat }
    }
}

impl Session {
    /// A session whose timer is idle and which has drawn nothing.
    pub fn new() -> (session: Session)
        ensures
            session@ == Model::fresh(),
    {
        Session { timer: State::new(), counter: 0 }
    }

    /// The session's timer, to read.
    pub fn timer(&self) -> (timer: &State)
        ensures
            timer@ == self@.timer,
    {
        &self.timer
    }

    /// Takes in `event`, which happened at `now`, and says what the loop
    /// does next.
    pub fn step(&mut self, event: Event, now: u64) -> (action: Action)
        ensures
            final(self)@ == old(self)@.after(event, now as nat),
            action == old(self)@.action(event, now as nat),
            final(self)@.wf(),
    {
        let action: Action = match event {
            Event::Command(command) => {
                self.timer.apply(command, now);
                match command {
                    Command::Quit => Action::Stop,
                    _ => Action::Wait,
                }
            },
            Event::Closed => Action::Stop,
            Event::Tick => {
                if !self.timer.is_running() {
                    Action::Wait
                } else if self.timer.is_paused() {
                    Action::Redraw(Status::Paused { elapsed: self.timer.total_elapsed(now) })
                } else {
                    if self.counter == u64::MAX {
                        self.counter = 0;
                    }
                    self.counter = self.counter + 1;
                    Action::Redraw(
                        Status::Counting {
                            minutes: self.timer.get_total_minutes(now),
                            marks: self.counter % MARKS + 1,
                        },
                    )
                }
            },
        };
        proof {
            use_type_invariant(&self.timer);
        }
        action
    }

    /// Decides, when the loop is left at `now`, whether the time counted goes
    /// to the log.
    pub fn finish(&self, now: u64) -> (outcome: Outcome)
        ensures
            outcome == self@.outcome(now as nat),
    {
        let elapsed: u64 = self.timer.total_elapsed(now);
        if elapsed >= LOGGING_THRESHOLD {
            Outcome::Logged(elapsed)
        } else {
            Outcome::Nothing
        }
    }
}

/// Where logged hours go.
#[derive(Debug, Clone, Copy, PartialEq, Eq, Structural)]
pub enum Sink {
    /// A line is added to the file named.
    File,
    /// A row is added to the database, under the job named.
    Database,
    /// Neither a file nor a job is named: there is nowhere to log to.
    Nowhere,
}

/// Picks the sink: the file where one is named, else the database where a
/// job is.
pub fn sink_for(filename: &Option<String>, job_name: &Option<String>) -> (sink: Sink)
    ensures
        sink == if filename.is_some() {
            Sink::File
        } else if job_name.is_some() {
            Sink::Database
        } else {
            Sink::Nowhere
        },
{
    if filename.is_some() {
        Sink::File
    } else if job_name.is_some() {
        Sink::Database
    } else {
        Sink::Nowhere
    }
}

/// The job as a line of the log names it: a dash where there is none.
pub open spec fn job_text(job_name: Option<String>) -> Seq<char> {
    match job_name {
        Some(job) => job@,
        None => "-"@,
    }
}

/// The line that logs `hours` on `date`: job, date and hours, with one
/// space between them.
pub fn entry_line(job_name: &Option<String>, date: &str, hours: &str) -> (line: String)
    ensures
        line@ == job_text(*job_name) + " "@ + date@ + " "@ + hours@,
{
    let mut line: String = match job_name {
        Some(job) => job.clone(),
        None => String::from_str("-"),
    };
    line.append(" ");
    line.append(date);
    line.append(" ");
    line.append(hours);
    line
}

} // verus!
