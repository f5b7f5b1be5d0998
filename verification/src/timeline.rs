//! Runs of commands against the timer, each with the clock reading at which
//! it arrived, and the wall-clock time such a run spends counting.

use crate::loopstate::{Command, Phase, State, Timer};
use vstd::prelude::*;

verus! {

/// A command and the clock reading at which it arrived.
pub struct Stamped {
    pub command: Command,
    pub at: nat,
}

/// The timer after every command of `trace`, in order.
pub open spec fn run(timer: Timer, trace: Seq<Stamped>) -> Timer
    decreases trace.len(),
{
    if trace.len() == 0 {
        timer
    } else {
        run(timer, trace.drop_last()).apply(trace.last().command, trace.last().at)
    }
}

/// The reading at which `trace` ends, for a run that began at `start`.
pub open spec fn end_of(start: nat, trace: Seq<Stamped>) -> nat {
    if trace.len() == 0 {
        start
    } else {
        trace.last().at
    }
}

/// The readings of `trace` never go back, neither behind `start` nor behind
/// one another.
pub open spec fn in_order(start: nat, trace: Seq<Stamped>) -> bool {
    &&& forall|i: int| 0 <= i < trace.len() ==> start <= (#[trigger] trace[i]).at
    &&& forall|i: int, j: int|
        0 <= i <= j < trace.len() ==> (#[trigger] trace[i]).at <= (#[trigger] trace[j]).at
}

/// `trace` holds nothing but pauses and resumes.
pub open spec fn pauses_and_resumes(trace: Seq<Stamped>) -> bool {
    forall|i: int|
        0 <= i < trace.len() ==> {
            let command = (#[trigger] trace[i]).command;
            command == Command::Pause || command == Command::Resume
        }
}

/// Whether the clock counts after `trace`, for a run that began counting: the
/// last pause or resume decides, however many came before it.
pub open spec fn counting_after(trace: Seq<Stamped>) -> bool
    decreases trace.len(),
{
    if trace.len() == 0 {
        true
    } else {
        match trace.last().command {
            Command::Pause => false,
            Command::Resume => true,
            _ => counting_after(trace.drop_last()),
        }
    }
}

/// Wall-clock time between `start` and the end of `trace` during which the
/// clock counted: the sum of the gaps between consecutive readings that
/// began while counting.
pub open spec fn active_time(start: nat, trace: Seq<Stamped>) -> nat
    decreases trace.len(),
{
    if trace.len() == 0 {
        0
    } else {
        let before = trace.drop_last();
        let gap = if counting_after(before) {
            (trace.last().at - end_of(start, before)) as nat
        } else {
            0
        };
        active_time(start, before) + gap
    }
}

/// From an active timer, any run of pauses and resumes whose readings are in
/// order leaves a total, read at the end of the run, of what was banked
/// before plus the wall-clock time spent counting since the anchor. Calls
/// that change nothing (a pause while paused, a resume while counting) add
/// nothing and lose nothing.
pub proof fn lemma_total_is_active_time(timer: Timer, trace: Seq<Stamped>)
    requires
        timer.wf(),
        timer.phase == Phase::Active,
        pauses_and_resumes(trace),
        in_order(timer.anchor, trace),
    ensures
        run(timer, trace).total(end_of(timer.anchor, trace)) == timer.accumulated + active_time(
            timer.anchor,
            trace,
        ),
        run(timer, trace).phase == if counting_after(trace) {
            Phase::Active
        } else {
            Phase::Paused
        },
        run(timer, trace).wf(),
        run(timer, trace).anchor <= end_of(timer.anchor, trace),
    decreases trace.len(),
{
    if trace.len() > 0 {
        let before = trace.drop_last();
        assert(pauses_and_resumes(before)) by {
            assert forall|i: int| 0 <= i < before.len() implies {
                let command = (#[trigger] before[i]).command;
                command == Command::Pause || command == Command::Resume
            } by {
                assert(before[i] == trace[i]);
            }
        }
        assert(in_order(timer.anchor, before)) by {
            assert forall|i: int| 0 <= i < before.len() implies timer.anchor <= (
            #[trigger] before[i]).at by {
                assert(before[i] == trace[i]);
            }
            assert forall|i: int, j: int| 0 <= i <= j < before.len() implies (
            #[trigger] before[i]).at <= (#[trigger] before[j]).at by {
                assert(before[i] == trace[i]);
                assert(before[j] == trace[j]);
            }
        }
        lemma_total_is_active_time(timer, before);
        assert(end_of(timer.anchor, before) <= trace.last().at) by {
            if before.len() > 0 {
                assert(before.last() == trace[trace.len() - 2]);
            }
        }
    }
}

/// The phase after `trace`, for a run that began in `phase`. The readings
/// play no part in it.
pub open spec fn phase_after(phase: Phase, trace: Seq<Stamped>) -> Phase
    decreases trace.len(),
{
    if trace.len() == 0 {
        phase
    } else {
        phase_after(phase, trace.drop_last()).after(trace.last().command)
    }
}

/// Wall-clock time between `start` and the end of `trace` that a run which
/// began in `phase` spends in the active phase: the sum of the gaps between
/// consecutive readings that began while active.
pub open spec fn time_spent_active(start: nat, phase: Phase, trace: Seq<Stamped>) -> nat
    decreases trace.len(),
{
    if trace.len() == 0 {
        0
    } else {
        let before = trace.drop_last();
        let gap = if phase_after(phase, before) == Phase::Active {
            (trace.last().at - end_of(start, before)) as nat
        } else {
            0
        };
        time_spent_active(start, phase, before) + gap
    }
}

/// Whatever the commands, as long as their readings are in order: over a
/// run that begins at `start`, the total grows by exactly the wall-clock
/// time spent in the active phase. No command adds time of its own, none
/// loses any, and none counts an interval twice.
pub proof fn lemma_total_is_time_spent_active(timer: Timer, start: nat, trace: Seq<Stamped>)
    requires
        timer.wf(),
        timer.anchor <= start,
        in_order(start, trace),
    ensures
        run(timer, trace).total(end_of(start, trace)) == timer.total(start) + time_spent_active(
            start,
            timer.phase,
            trace,
        ),
        run(timer, trace).phase == phase_after(timer.phase, trace),
        run(timer, trace).wf(),
        run(timer, trace).anchor <= end_of(start, trace),
    decreases trace.len(),
{
    if trace.len() > 0 {
        let before = trace.drop_last();
        assert(in_order(start, before)) by {
            assert forall|i: int| 0 <= i < before.len() implies start <= (#[trigger] before[i]).at by {
                assert(before[i] == trace[i]);
            }
            assert forall|i: int, j: int| 0 <= i <= j < before.len() implies (
            #[trigger] before[i]).at <= (#[trigger] before[j]).at by {
                assert(before[i] == trace[i]);
                assert(before[j] == trace[j]);
            }
        }
        lemma_total_is_time_spent_active(timer, start, before);
        assert(end_of(start, before) <= trace.last().at) by {
            if before.len() > 0 {
                assert(before.last() == trace[trace.len() - 2]);
            } else {
                assert(trace.last() == trace[0]);
            }
        }
    }
}

/// A command and the clock reading at which it arrived, as a program holds
/// them.
#[derive(Clone, Copy, Debug)]
pub struct Stamp {
    pub command: Command,
    pub at: u64,
}

impl View for Stamp {
    type V = Stamped;

    open spec fn view(&self) -> Stamped {
        Stamped { command: self.command, at: self.at as nat }
    }
}

/// The run that a list of stamps stands for.
pub open spec fn stamped(trace: Seq<Stamp>) -> Seq<Stamped> {
    Seq::new(trace.len(), |i: int| trace[i]@)
}

/// Hands every command of `trace` to `state`, in order, each with its
/// reading.
pub fn replay(state: &mut State, trace: &Vec<Stamp>)
    ensures
        final(state)@ == run(old(state)@, stamped(trace@)),
{
    let mut i: usize = 0;
    proof {
        assert(stamped(trace@.take(0)) =~= Seq::<Stamped>::empty());
    }
    while i < trace.len()
        invariant
            i <= trace@.len(),
            state@ == run(old(state)@, stamped(trace@.take(i as int))),
        decreases trace@.len() - i,
    {
        proof {
            let next = stamped(trace@.take(i + 1));
            assert(next.drop_last() =~= stamped(trace@.take(i as int)));
            assert(next.last() == trace@[i as int]@);
        }
        state.apply(trace[i].command, trace[i].at);
        i = i + 1;
    }
    proof {
        assert(trace@.take(trace@.len() as int) =~= trace@);
    }
}

} // verus!
