//! The metrics store, its text rendering, and the poll scheduler.
//!
//! The store holds the single current reading, replaced whole on every
//! commit, so a reader sees either the previous reading or the new one and
//! never a mixture.  Rendering serializes the stored reading only — it
//! never recomputes from raw input, and before the first commit it yields
//! an empty body rather than an error.  The scheduler is the poll loop's
//! decision core: a two-state machine (idle, polling) whose effective
//! interval is clamped to the 300-second floor once, at construction.

use vstd::prelude::*;
use vstd::string::*;
use crate::config::{MIN_QUERY_RATE, clamped_rate};
use crate::milli::{fmt_milli, fmt_milli_spec};
use crate::purple_reading::PurpleReading;

verus! {

/// One line of the exposition text: `<name> <value>\n`.
pub open spec fn metric_line(name: Seq<char>, v: int) -> Seq<char> {
    name + " "@ + fmt_milli_spec(v) + "\n"@
}

/// The full exposition text of a reading: one line per slot, in the fixed
/// field order — atmospheric, mass A, mass B, count A, count B.
pub open spec fn render_spec(r: PurpleReading) -> Seq<char> {
    metric_line("purple_humidity"@, r.atmo_sen_a@[0] as int)
        + metric_line("purple_temperature_f"@, r.atmo_sen_a@[1] as int)
        + metric_line("purple_pressure"@, r.atmo_sen_a@[2] as int)
        + metric_line("purple_pm1_0_atm_a"@, r.pm_sen_a@[0] as int)
        + metric_line("purple_pm2_5_atm_a"@, r.pm_sen_a@[1] as int)
        + metric_line("purple_pm10_0_atm_a"@, r.pm_sen_a@[2] as int)
        + metric_line("purple_pm1_0_atm_b"@, r.pm_sen_b@[0] as int)
        + metric_line("purple_pm2_5_atm_b"@, r.pm_sen_b@[1] as int)
        + metric_line("purple_pm10_0_atm_b"@, r.pm_sen_b@[2] as int)
        + metric_line("purple_p_0_3_um_a"@, r.ct_sen_a@[0] as int)
        + metric_line("purple_p_0_5_um_a"@, r.ct_sen_a@[1] as int)
        + metric_line("purple_p_1_0_um_a"@, r.ct_sen_a@[2] as int)
        + metric_line("purple_p_2_5_um_a"@, r.ct_sen_a@[3] as int)
        + metric_line("purple_p_5_0_um_a"@, r.ct_sen_a@[4] as int)
        + metric_line("purple_p_10_0_um_a"@, r.ct_sen_a@[5] as int)
        + metric_line("purple_p_0_3_um_b"@, r.ct_sen_b@[0] as int)
        + metric_line("purple_p_0_5_um_b"@, r.ct_sen_b@[1] as int)
        + metric_line("purple_p_1_0_um_b"@, r.ct_sen_b@[2] as int)
        + metric_line("purple_p_2_5_um_b"@, r.ct_sen_b@[3] as int)
        + metric_line("purple_p_5_0_um_b"@, r.ct_sen_b@[4] as int)
        + metric_line("purple_p_10_0_um_b"@, r.ct_sen_b@[5] as int)
}

/// The exposition text of the store's state: empty before any commit.
pub open spec fn render_snapshot(s: Option<PurpleReading>) -> Seq<char> {
    match s {
        None => Seq::empty(),
        Some(r) => render_spec(r),
    }
}

fn push_line(out: &mut String, name: &str, v: i64)
    ensures
        final(out)@ == old(out)@ + metric_line(name@, v as int),
{
    out.append(name);
    out.append(" ");
    let t = fmt_milli(v);
    out.append(t.as_str());
    out.append("\n");
    proof {
        assert(out@ =~= old(out)@ + metric_line(name@, v as int));
    }
}

/// Renders a reading as the exposition text, one `<name> <value>` line per
/// slot in the fixed field order.
pub fn render_reading(r: &PurpleReading) -> (out: String)
    requires
        r.wf(),
    ensures
        out@ == render_spec(*r),
{
    let mut out = String::new();
    push_line(&mut out, "purple_humidity", r.atmo_sen_a[0]);
    push_line(&mut out, "purple_temperature_f", r.atmo_sen_a[1]);
    push_line(&mut out, "purple_pressure", r.atmo_sen_a[2]);
    push_line(&mut out, "purple_pm1_0_atm_a", r.pm_sen_a[0]);
    push_line(&mut out, "purple_pm2_5_atm_a", r.pm_sen_a[1]);
    push_line(&mut out, "purple_pm10_0_atm_a", r.pm_sen_a[2]);
    push_line(&mut out, "purple_pm1_0_atm_b", r.pm_sen_b[0]);
    push_line(&mut out, "purple_pm2_5_atm_b", r.pm_sen_b[1]);
    push_line(&mut out, "purple_pm10_0_atm_b", r.pm_sen_b[2]);
    push_line(&mut out, "purple_p_0_3_um_a", r.ct_sen_a[0]);
    push_line(&mut out, "purple_p_0_5_um_a", r.ct_sen_a[1]);
    push_line(&mut out, "purple_p_1_0_um_a", r.ct_sen_a[2]);
    push_line(&mut out, "purple_p_2_5_um_a", r.ct_sen_a[3]);
    push_line(&mut out, "purple_p_5_0_um_a", r.ct_sen_a[4]);
    push_line(&mut out, "purple_p_10_0_um_a", r.ct_sen_a[5]);
    push_line(&mut out, "purple_p_0_3_um_b", r.ct_sen_b[0]);
    push_line(&mut out, "purple_p_0_5_um_b", r.ct_sen_b[1]);
    push_line(&mut out, "purple_p_1_0_um_b", r.ct_sen_b[2]);
    push_line(&mut out, "purple_p_2_5_um_b", r.ct_sen_b[3]);
    push_line(&mut out, "purple_p_5_0_um_b", r.ct_sen_b[4]);
    push_line(&mut out, "purple_p_10_0_um_b", r.ct_sen_b[5]);
    proof {
        assert(out@ =~= render_spec(*r));
    }
    out
}

/// Holds the current reading between commits.  The reading is replaced
/// whole: there is no state in which some slots come from one commit and
/// some from another.  The surrounding process puts this store behind its
/// one writer-excluding boundary; every operation here is a single cheap
/// pass over the value, so a reader is never blocked for longer than one
/// swap or one serialization.
pub struct MetricsStore {
    current: Option<PurpleReading>,
}

impl MetricsStore {
    /// The current reading, `None` before the first commit.
    pub closed spec fn snapshot(self) -> Option<PurpleReading> {
        self.current
    }

    /// Any stored reading has the fixed shape.
    pub open spec fn inv(self) -> bool {
        self.snapshot() is Some ==> self.snapshot()->0.wf()
    }

    /// An empty store: no reading yet.
    pub fn new() -> (s: Self)
        ensures
            s.snapshot() is None,
            s.inv(),
    {
        MetricsStore { current: None }
    }

    /// Replaces the current reading whole.
    pub fn commit(&mut self, reading: PurpleReading)
        requires
            reading.wf(),
        ensures
            final(self).snapshot() == Some(reading),
            final(self).inv(),
    {
        self.current = Some(reading);
    }

    /// Renders the current reading; before any commit the body is empty,
    /// never an error.
    pub fn render(&self) -> (out: String)
        requires
            self.inv(),
        ensures
            out@ == render_snapshot(self.snapshot()),
    {
        match &self.current {
            None => String::new(),
            Some(r) => render_reading(r),
        }
    }
}

/// The two states of the poll loop.
#[derive(PartialEq, Eq, Structural, Clone, Copy, Debug)]
pub enum SchedulerState {
    /// Waiting for the interval timer.
    Idle,
    /// A fetch-parse-calibrate-commit cycle is in progress.
    Polling,
}

/// What the loop tells the scheduler.
#[derive(PartialEq, Eq, Structural, Clone, Copy, Debug)]
pub enum SchedulerEvent {
    /// The interval timer elapsed.
    IntervalElapsed,
    /// The current cycle finished, whether it committed or failed.
    CycleComplete,
}

/// What the loop is told to do next.
#[derive(PartialEq, Eq, Structural, Clone, Copy, Debug)]
pub enum SchedulerAction {
    /// Begin a fetch-parse-calibrate-commit cycle.
    StartCycle,
    /// Sleep for this many seconds.
    Wait(u64),
    /// The event did not apply to the current state; do nothing.
    Hold,
}

/// The poll loop's decision core.  The effective interval is fixed at
/// construction, clamped to the 300-second floor, and never changes.
pub struct Scheduler {
    pub state: SchedulerState,
    pub interval: u64,
}

impl Scheduler {
    /// The interval never falls below the floor, however the scheduler was
    /// configured.
    pub open spec fn wf(self) -> bool {
        self.interval >= MIN_QUERY_RATE
    }

    /// A scheduler that starts idle, with the requested interval clamped
    /// to the 300-second floor.
    pub fn new(requested: u64) -> (s: Self)
        ensures
            s.state == SchedulerState::Idle,
            s.interval as int == clamped_rate(requested as int),
            s.wf(),
    {
        Scheduler {
            state: SchedulerState::Idle,
            interval: if requested < MIN_QUERY_RATE {
                MIN_QUERY_RATE
            } else {
                requested
            },
        }
    }

    /// One transition: idle plus an elapsed timer starts a cycle; a
    /// finished cycle — committed or failed alike — returns to idle and
    /// waits one full interval.  Any other event holds the state.
    pub fn step(&mut self, event: SchedulerEvent) -> (action: SchedulerAction)
        requires
            old(self).wf(),
        ensures
            final(self).wf(),
            final(self).interval == old(self).interval,
            old(self).state == SchedulerState::Idle && event == SchedulerEvent::IntervalElapsed
                ==> final(self).state == SchedulerState::Polling && action == SchedulerAction::StartCycle,
            old(self).state == SchedulerState::Polling && event == SchedulerEvent::CycleComplete
                ==> final(self).state == SchedulerState::Idle
                    && action == SchedulerAction::Wait(old(self).interval),
            old(self).state == SchedulerState::Idle && event == SchedulerEvent::CycleComplete
                ==> final(self).state == old(self).state && action == SchedulerAction::Hold,
            old(self).state == SchedulerState::Polling && event == SchedulerEvent::IntervalElapsed
                ==> final(self).state == old(self).state && action == SchedulerAction::Hold,
    {
        match (self.state, event) {
            (SchedulerState::Idle, SchedulerEvent::IntervalElapsed) => {
                self.state = SchedulerState::Polling;
                SchedulerAction::StartCycle
            },
            (SchedulerState::Polling, SchedulerEvent::CycleComplete) => {
                self.state = SchedulerState::Idle;
                SchedulerAction::Wait(self.interval)
            },
            _ => SchedulerAction::Hold,
        }
    }
}

} // verus!
