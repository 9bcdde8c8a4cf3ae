//! The repeating job that drives the ticks.
//!
//! One timer, one job, no overlap: the job is idle until the hosting process
//! signals readiness, then armed, and exactly one tick runs at a time.  A
//! tick that fails re-arms the job exactly as a tick that succeeds: no
//! outcome ever stops the polling, so a single bad fetch can never disable
//! future firings.

use vstd::prelude::*;

use crate::tick::TickOutcome;

verus! {

/// Where the job stands.
#[derive(Clone, Copy, Debug, PartialEq, Eq, Structural)]
pub enum JobState {
    /// Not yet started: the hosting process has not signalled readiness.
    Idle,
    /// The timer is registered and waiting for the next firing.
    Armed,
    /// One tick is executing; no second tick can begin.
    Running,
}

/// The polling job: its state, its fixed period, and an account of its
/// ticks and announcements.
pub struct Scheduler {
    pub state: JobState,
    pub period_secs: u64,
    pub ticks_started: u64,
    pub ticks_completed: u64,
    pub announcements: u64,
}

impl Scheduler {
    /// The job's invariant: ticks never overlap, so at most one tick is ever
    /// unfinished, and none starts before the job leaves `Idle`.
    pub open spec fn wf(&self) -> bool {
        &&& if self.state is Running {
            self.ticks_started == self.ticks_completed + 1
        } else {
            self.ticks_started == self.ticks_completed
        }
        &&& self.state is Idle ==> self.ticks_started == 0
        &&& self.announcements <= self.ticks_completed
    }

    /// A job that will fire every `period_secs` seconds once started.
    pub fn new(period_secs: u64) -> (s: Scheduler)
        ensures
            s.wf(),
            s.state is Idle,
            s.period_secs == period_secs,
            s.ticks_started == 0,
            s.ticks_completed == 0,
            s.announcements == 0,
    {
        Scheduler {
            state: JobState::Idle,
            period_secs,
            ticks_started: 0,
            ticks_completed: 0,
            announcements: 0,
        }
    }

    /// Register the timer once the hosting process is ready.
    pub fn arm(&mut self)
        requires
            old(self).wf(),
            old(self).state is Idle,
        ensures
            final(self).wf(),
            final(self).state is Armed,
            final(self).period_secs == old(self).period_secs,
            final(self).ticks_started == old(self).ticks_started,
            final(self).ticks_completed == old(self).ticks_completed,
            final(self).announcements == old(self).announcements,
    {
        self.state = JobState::Armed;
    }

    /// Begin one tick.  Only an armed job can begin one, so two ticks never
    /// overlap; a tick that outlives the period merely delays the next.
    pub fn begin_tick(&mut self)
        requires
            old(self).wf(),
            old(self).state is Armed,
            old(self).ticks_started < u64::MAX,
        ensures
            final(self).wf(),
            final(self).state is Running,
            final(self).period_secs == old(self).period_secs,
            final(self).ticks_started == old(self).ticks_started + 1,
            final(self).ticks_completed == old(self).ticks_completed,
            final(self).announcements == old(self).announcements,
    {
        self.state = JobState::Running;
        self.ticks_started = self.ticks_started + 1;
    }

    /// End one tick with its outcome.  Whatever the outcome — an
    /// announcement, a duplicate, or any failure — the job is armed again:
    /// a failed tick never disables future polling.
    pub fn finish_tick(&mut self, outcome: &TickOutcome)
        requires
            old(self).wf(),
            old(self).state is Running,
        ensures
            final(self).wf(),
            final(self).state is Armed,
            final(self).period_secs == old(self).period_secs,
            final(self).ticks_started == old(self).ticks_started,
            final(self).ticks_completed == old(self).ticks_completed + 1,
            final(self).announcements == old(self).announcements + (
            if outcome@ is Announce {
                1int
            } else {
                0int
            }),
    {
        self.state = JobState::Armed;
        self.ticks_completed = self.ticks_completed + 1;
        match outcome {
            TickOutcome::Announce(_) => {
                self.announcements = self.announcements + 1;
            },
            _ => {},
        }
    }
}

} // verus!
