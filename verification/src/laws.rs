//! Laws relating several timer operations, stated over the timer's
//! mathematical model and proved once for all states and inputs.

use vstd::prelude::*;

use crate::timer::TimerModel;
use crate::timer::hours_of;
use crate::timer::minutes_of;

verus! {

/// One command a host can issue to the timer, with the clock reading it
/// passes along.
pub enum Command {
    Start(u64),
    Pause,
}

/// The timer state after one command.
pub open spec fn apply_command(m: TimerModel, c: Command) -> TimerModel {
    match c {
        Command::Start(now_ms) => m.start(now_ms),
        Command::Pause => m.pause(),
    }
}

/// The timer state after a sequence of commands, applied left to right.
pub open spec fn apply_commands(m: TimerModel, cmds: Seq<Command>) -> TimerModel
    decreases cmds.len(),
{
    if cmds.len() == 0 {
        m
    } else {
        apply_commands(apply_command(m, cmds[0]), cmds.drop_first())
    }
}

/// For every state and every non-empty sequence of `start`/`pause` commands,
/// `running` afterwards reflects the most recent command alone: true exactly
/// when it was a `start`. Repeating a command changes nothing further.
pub proof fn lemma_running_reflects_last_command(m: TimerModel, cmds: Seq<Command>)
    requires
        cmds.len() > 0,
    ensures
        apply_commands(m, cmds).running == (cmds.last() is Start),
    decreases cmds.len(),
{
    if cmds.len() == 1 {
        assert(cmds.drop_first().len() == 0);
    } else {
        lemma_running_reflects_last_command(apply_command(m, cmds[0]), cmds.drop_first());
        assert(cmds.drop_first().last() == cmds.last());
    }
}

/// Once paused, a tick at any later time — from any schedule, however armed —
/// terminates the schedule and notifies nobody.
pub proof fn lemma_no_notes_after_pause(m: TimerModel, now_ms: u64)
    ensures
        m.pause().tick(now_ms) is None,
{
}

/// `start` while in any state — in particular while already running — resets
/// the elapsed-time origin: a tick then reports the time since that `start`
/// alone, and within the first minute after it reports zero hours and zero
/// minutes, never a cumulative elapsed time from an earlier start.
pub proof fn lemma_restart_resets_origin(m: TimerModel, restart_ms: u64, now_ms: u64)
    requires
        restart_ms <= now_ms,
    ensures
        ({
            let secs = (now_ms - restart_ms) / 1000;
            let ticked = m.start(restart_ms).tick(now_ms);
            &&& ticked is Some
            &&& ticked->Some_0.len() == m.observers.len()
            &&& forall|i: int|
                0 <= i < ticked->Some_0.len() ==> (#[trigger] ticked->Some_0[i]).hours == hours_of(
                    secs,
                ) && ticked->Some_0[i].minutes == minutes_of(secs)
            &&& secs < 60 ==> forall|i: int|
                0 <= i < ticked->Some_0.len() ==> (#[trigger] ticked->Some_0[i]).hours == 0
                    && ticked->Some_0[i].minutes == 0
        }),
{
    let secs = (now_ms - restart_ms) / 1000;
    if secs < 60 {
        assert(secs % 3600 == secs);
        assert(hours_of(secs) == 0);
        assert(minutes_of(secs) == 0);
    }
}

/// Registering two observers in turn notifies both, in registration order,
/// on every tick while running: the two ids handed out come last in the
/// observer list, in the order they were handed out, and a tick produces one
/// note per registered observer, in list order.
pub proof fn lemma_two_observers_in_order(m: TimerModel, now_ms: u64)
    ensures
        ({
            let first_id = m.next_id;
            let second_id = m.connect().next_id;
            let m2 = m.connect().connect();
            &&& m2.observers == m.observers.push(first_id).push(second_id)
            &&& m2.running == m.running
            &&& m2.running ==> (m2.tick(now_ms) matches Some(notes) && notes.len()
                == m.observers.len() + 2 && notes[notes.len() - 2].observer == first_id
                && notes[notes.len() - 1].observer == second_id)
        }),
{
}

} // verus!
