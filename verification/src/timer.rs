//! The timer state machine: running flag, reference instant, observer
//! registrations, and the tick decision.

use vstd::prelude::*;

verus! {

/// Period, in milliseconds, at which a host event loop should fire an armed
/// schedule.
pub const TICK_PERIOD_MS: u64 = 100;

/// One elapsed-time notification, addressed to a single registered observer.
#[derive(Clone, Copy, Debug, PartialEq, Eq, Structural)]
pub struct TickNote {
    /// Registration id returned by `connect_stopwatch_update`.
    pub observer: u64,
    /// Whole elapsed hours, truncating.
    pub hours: u32,
    /// Whole elapsed minutes within the current hour, truncating.
    pub minutes: u32,
}

/// The whole-hours component of an elapsed time in seconds, clamped to
/// `u32::MAX` rather than wrapping when the elapsed time is out of range.
pub open spec fn hours_of(secs: int) -> u32
    recommends
        secs >= 0,
{
    if secs / 3600 > u32::MAX {
        u32::MAX
    } else {
        (secs / 3600) as u32
    }
}

/// The whole-minutes-within-the-hour component of an elapsed time in seconds.
pub open spec fn minutes_of(secs: int) -> u32
    recommends
        secs >= 0,
{
    ((secs % 3600) / 60) as u32
}

/// The timer: a two-state machine (stopped or running) with a wall-clock
/// reference instant and an ordered list of observer registrations.
///
/// The timer owns no clock and no event loop. The host passes the current
/// time, as milliseconds of some monotonic clock, to `start` and `tick`, and
/// is expected to arm a repeating schedule firing every `TICK_PERIOD_MS`
/// milliseconds whenever it calls `start`; each firing calls `tick`, which
/// tells the schedule whether to keep going and what to deliver.
pub struct Timer {
    /// Whether a tick schedule is active.
    pub running: bool,
    /// Reference instant, in host clock milliseconds, set when running last
    /// began; absent only when the timer has never been started. Pausing
    /// does not clear it: elapsed time is measured from the original start.
    pub start_instant: Option<u64>,
    /// Observer registration ids, in registration order.
    pub observers: Vec<u64>,
    /// The id the next registration will receive.
    pub next_id: u64,
}

/// The timer's mathematical model: the same four components, with the
/// observer list as a sequence.
pub struct TimerModel {
    pub running: bool,
    pub start_instant: Option<u64>,
    pub observers: Seq<u64>,
    pub next_id: u64,
}

impl View for Timer {
    type V = TimerModel;

    open spec fn view(&self) -> TimerModel {
        TimerModel {
            running: self.running,
            start_instant: self.start_instant,
            observers: self.observers@,
            next_id: self.next_id,
        }
    }
}

impl TimerModel {
    /// Well-formedness: a running timer has a reference instant, and the
    /// registration ids are strictly increasing (hence unique) and all below
    /// the next id to be handed out.
    pub open spec fn wf(self) -> bool {
        &&& self.running ==> self.start_instant is Some
        &&& forall|i: int, j: int|
            0 <= i < j < self.observers.len() ==> self.observers[i] < self.observers[j]
        &&& forall|i: int| 0 <= i < self.observers.len() ==> self.observers[i] < self.next_id
    }

    /// The state after `start` at time `now_ms`: running, with the reference
    /// instant reset to `now_ms` whatever it was before.
    pub open spec fn start(self, now_ms: u64) -> TimerModel {
        TimerModel { running: true, start_instant: Some(now_ms), ..self }
    }

    /// The state after `pause`: stopped, everything else untouched. The
    /// reference instant is kept.
    pub open spec fn pause(self) -> TimerModel {
        TimerModel { running: false, ..self }
    }

    /// The state after one observer registration: the next id is appended to
    /// the observer list and the counter moves past it.
    pub open spec fn connect(self) -> TimerModel {
        TimerModel {
            observers: self.observers.push(self.next_id),
            next_id: (self.next_id + 1) as u64,
            ..self
        }
    }

    /// Elapsed whole seconds between the reference instant and `now_ms`.
    pub open spec fn elapsed_secs(self, now_ms: u64) -> int
        recommends
            self.start_instant is Some,
            now_ms >= self.start_instant->Some_0,
    {
        (now_ms - self.start_instant->Some_0) / 1000
    }

    /// The notifications one tick at time `now_ms` produces: one note per
    /// registered observer, in registration order, all carrying the same
    /// elapsed `(hours, minutes)` breakdown.
    pub open spec fn notes(self, now_ms: u64) -> Seq<TickNote>
        recommends
            self.start_instant is Some,
            now_ms >= self.start_instant->Some_0,
    {
        Seq::new(
            self.observers.len(),
            |i: int|
                TickNote {
                    observer: self.observers[i],
                    hours: hours_of(self.elapsed_secs(now_ms)),
                    minutes: minutes_of(self.elapsed_secs(now_ms)),
                },
        )
    }

    /// What one schedule firing at time `now_ms` decides: `None` when the
    /// timer is stopped (the schedule terminates, nobody is notified),
    /// `Some(notes)` when it is running (the schedule continues and each
    /// observer receives its note).
    pub open spec fn tick(self, now_ms: u64) -> Option<Seq<TickNote>>
        recommends
            self.wf(),
            self.running ==> now_ms >= self.start_instant->Some_0,
    {
        if self.running {
            Some(self.notes(now_ms))
        } else {
            None
        }
    }
}

/// What one schedule firing returns to the host event loop.
#[derive(Debug)]
pub enum TickOutcome {
    /// The timer was stopped: the schedule terminates and nobody is
    /// notified.
    Stop,
    /// The timer is running: deliver each note to its observer, in order,
    /// then fire again after the period.
    Reschedule(Vec<TickNote>),
}

impl Timer {
    /// A fresh timer: stopped, never started, with no observers.
    pub fn new() -> (t: Timer)
        ensures
            !t.running,
            t.start_instant is None,
            t.observers@ == Seq::<u64>::empty(),
            t.next_id == 0,
            t@.wf(),
    {
        let t = Timer { running: false, start_instant: None, observers: Vec::new(), next_id: 0 };
        assert(t.observers@ =~= Seq::<u64>::empty());
        t
    }

    /// Starts (or restarts) the timer: it is running afterwards and its
    /// elapsed-time origin is reset to `now_ms`, whatever the state before.
    ///
    /// The caller is expected to arm a fresh repeating schedule that fires
    /// every `TICK_PERIOD_MS` milliseconds and calls `tick`; a schedule armed
    /// by an earlier `start` is not cancelled here, it terminates on its own
    /// the first time it fires while the timer is stopped.
    pub fn start(&mut self, now_ms: u64)
        ensures
            final(self)@ == old(self)@.start(now_ms),
            final(self).running,
            final(self).start_instant == Some(now_ms),
            final(self).observers@ == old(self).observers@,
            final(self).next_id == old(self).next_id,
            old(self)@.wf() ==> final(self)@.wf(),
    {
        self.running = true;
        self.start_instant = Some(now_ms);
    }

    /// Pauses the timer: it is stopped afterwards and nothing else changes.
    /// In particular the reference instant is kept, and armed schedules are
    /// left to observe the stopped flag and terminate themselves.
    pub fn pause(&mut self)
        ensures
            final(self)@ == old(self)@.pause(),
            !final(self).running,
            final(self).start_instant == old(self).start_instant,
            final(self).observers@ == old(self).observers@,
            final(self).next_id == old(self).next_id,
            old(self)@.wf() ==> final(self)@.wf(),
    {
        self.running = false;
    }

    /// Registers one observer and returns its registration id. On every tick
    /// while running, each registered observer receives one note, in
    /// registration order.
    ///
    /// The host keeps the association from the returned id to whatever
    /// renders the notification.
    pub fn connect_stopwatch_update(&mut self) -> (id: u64)
        requires
            old(self).next_id < u64::MAX,
        ensures
            id == old(self).next_id,
            final(self)@ == old(self)@.connect(),
            final(self).observers@ == old(self).observers@.push(id),
            final(self).running == old(self).running,
            final(self).start_instant == old(self).start_instant,
            final(self).next_id == old(self).next_id + 1,
            old(self)@.wf() ==> final(self)@.wf(),
    {
        let id = self.next_id;
        self.observers.push(id);
        self.next_id = id + 1;
        proof {
            if old(self)@.wf() {
                assert forall|i: int, j: int|
                    0 <= i < j < self@.observers.len() implies self@.observers[i]
                    < self@.observers[j] by {
                    if j < self@.observers.len() - 1 {
                        assert(old(self)@.observers[i] < old(self)@.observers[j]);
                    } else {
                        assert(old(self)@.observers[i] < old(self)@.next_id);
                    }
                }
            }
        }
        id
    }

    /// One schedule firing at time `now_ms`. If the timer is stopped the
    /// schedule must terminate, and no observer is notified. If it is
    /// running, the schedule continues and every registered observer, in
    /// registration order, receives the elapsed time since the reference
    /// instant, broken into whole hours and whole minutes within the hour.
    pub fn tick(&self, now_ms: u64) -> (r: TickOutcome)
        requires
            self@.wf(),
            self.running ==> now_ms >= self.start_instant->Some_0,
        ensures
            match r {
                TickOutcome::Stop => self@.tick(now_ms) is None,
                TickOutcome::Reschedule(notes) => self@.tick(now_ms) == Some(notes@),
            },
            (r is Stop) <==> !self.running,
    {
        if !self.running {
            return TickOutcome::Stop;
        }
        let start_ms = self.start_instant.unwrap();
        let secs: u64 = (now_ms - start_ms) / 1000;
        let (hours, minutes) = as_hours_and_minutes(secs);
        let mut notes: Vec<TickNote> = Vec::new();
        let mut i: usize = 0;
        while i < self.observers.len()
            invariant
                i <= self.observers.len(),
                notes@.len() == i,
                self@.wf(),
                self.running,
                now_ms >= self.start_instant->Some_0,
                secs == self@.elapsed_secs(now_ms),
                hours == hours_of(secs as int),
                minutes == minutes_of(secs as int),
                forall|j: int| 0 <= j < i ==> notes@[j] == self@.notes(now_ms)[j],
            decreases self.observers.len() - i,
        {
            notes.push(TickNote { observer: self.observers[i], hours, minutes });
            i = i + 1;
        }
        assert(notes@ =~= self@.notes(now_ms));
        TickOutcome::Reschedule(notes)
    }
}

impl Default for Timer {
    /// The same fresh timer `new` returns: stopped, never started, no
    /// observers.
    fn default() -> (t: Timer)
        ensures
            !t.running,
            t.start_instant is None,
            t.observers@ == Seq::<u64>::empty(),
            t.next_id == 0,
            t@.wf(),
    {
        Timer::new()
    }
}

/// Breaks an elapsed time in seconds into whole hours and whole minutes
/// within the hour, both truncating. Hours are clamped to `u32::MAX` instead
/// of wrapping when the elapsed time does not fit.
pub fn as_hours_and_minutes(secs: u64) -> (r: (u32, u32))
    ensures
        r.0 == hours_of(secs as int),
        r.1 == minutes_of(secs as int),
{
    let whole_hours: u64 = secs / 3600;
    let hours: u32 = if whole_hours > u32::MAX as u64 {
        u32::MAX
    } else {
        whole_hours as u32
    };
    let minutes: u32 = ((secs % 3600) / 60) as u32;
    (hours, minutes)
}

} // verus!
