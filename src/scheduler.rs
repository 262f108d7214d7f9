//! The frame scheduler's decisions. Its thread waits on the control channel
//! for one tick period at a time; each wake-up is an [`Event`] handed to
//! [`Scheduler::step`], which updates the scheduler's state and returns the
//! [`Action`] that the thread then performs.
use vstd::prelude::*;
use crate::battery::SENSOR_BATTERY;
use crate::command::RunnerCommand;
use crate::watcher::{MODULE_FILE, debounce_step, names_module};

verus! {

/// Tick period: how long the scheduler waits for a command before ticking.
pub const TICK_MS: u64 = 100;

/// Settle delay before a changed module file is read.
pub const SETTLE_MS: u64 = 2000;

/// Charge, in hundredths of a percent, that the simulated battery loses per tick.
pub const BATTERY_STEP: u32 = 10;

/// A full battery, in hundredths of a percent.
pub const FULL_BATTERY: u32 = 10000;

/// Largest frame number; the counter starts over at `0` after it.
pub const MAX_FRAME: i32 = 2147483647;

#[derive(Clone, Copy, Debug, PartialEq, Eq, Structural)]
pub enum Phase {
    Running,
    Reloading,
    Terminated,
}

/// What woke the scheduler's thread.
#[derive(Clone, Copy, Debug, PartialEq, Eq, Structural)]
pub enum Event {
    /// The tick period passed with no command.
    Timeout,
    /// A command arrived on the control channel.
    Command(RunnerCommand),
    /// Every sender of the control channel is gone.
    Disconnected,
}

/// What the scheduler's thread is to do next.
#[derive(Clone, Copy, Debug, PartialEq, Eq)]
pub enum Action {
    /// Call `sensor_update(sensor_id, value)`, then `apply(frame)`, on the module.
    Tick { sensor_id: i32, value: u32, frame: i32 },
    /// Wait `settle_ms`, load the module at `path`, hand the outcome to a
    /// [`ModuleSlot`], then call [`Scheduler::reload_done`].
    Reload { path: &'static str, settle_ms: u64 },
    /// Run the orderly shutdown, then leave the loop.
    Shutdown,
    /// Leave the loop at once.
    Exit,
    /// Nothing to do this time.
    Wait,
}

/// The scheduler's state, as the contracts speak of it.
pub struct SchedulerState {
    pub phase: Phase,
    pub frame: int,
    pub battery: int,
}

/// The simulated battery after one tick: one step lower, never below zero.
pub open spec fn drained(battery: int) -> int {
    if battery >= BATTERY_STEP { battery - BATTERY_STEP } else { 0 }
}

/// The frame after `frame`.
pub open spec fn next_frame(frame: int) -> int {
    if frame == MAX_FRAME { 0 } else { frame + 1 }
}

/// The state after the thread's next wake-up, and the action it performs.
pub open spec fn step_spec(s: SchedulerState, ev: Event) -> (SchedulerState, Action) {
    match s.phase {
        Phase::Terminated => (s, Action::Exit),
        Phase::Running => match ev {
            Event::Timeout => {
                let b = drained(s.battery);
                let f = next_frame(s.frame);
                (
                    SchedulerState { phase: Phase::Running, frame: f, battery: b },
                    Action::Tick { sensor_id: SENSOR_BATTERY, value: b as u32, frame: f as i32 },
                )
            },
            Event::Command(RunnerCommand::Reload) => (
                SchedulerState { phase: Phase::Reloading, ..s },
                Action::Reload { path: MODULE_FILE, settle_ms: SETTLE_MS },
            ),
            Event::Command(RunnerCommand::Stop) => (
                SchedulerState { phase: Phase::Terminated, ..s },
                Action::Shutdown,
            ),
            Event::Disconnected => (SchedulerState { phase: Phase::Terminated, ..s }, Action::Exit),
        },
        Phase::Reloading => match ev {
            Event::Timeout => (s, Action::Wait),
            Event::Command(RunnerCommand::Reload) => (s, Action::Wait),
            Event::Command(RunnerCommand::Stop) => (
                SchedulerState { phase: Phase::Terminated, ..s },
                Action::Shutdown,
            ),
            Event::Disconnected => (SchedulerState { phase: Phase::Terminated, ..s }, Action::Exit),
        },
    }
}

/// The states and actions of a run of wake-ups, in order.
pub open spec fn run_events(s: SchedulerState, evs: Seq<Event>) -> (SchedulerState, Seq<Action>)
    decreases evs.len(),
{
    if evs.len() == 0 {
        (s, Seq::empty())
    } else {
        let prev = run_events(s, evs.drop_last());
        let next = step_spec(prev.0, evs.last());
        (next.0, prev.1.push(next.1))
    }
}

/// A run gives one action per wake-up.
pub proof fn lemma_run_len(s: SchedulerState, evs: Seq<Event>)
    ensures
        run_events(s, evs).1.len() == evs.len(),
    decreases evs.len(),
{
    if evs.len() > 0 {
        lemma_run_len(s, evs.drop_last());
    }
}

/// `n` wake-ups in a row with no command.
pub open spec fn timeouts(n: nat) -> Seq<Event> {
    Seq::new(n, |i: int| Event::Timeout)
}

/// With no command pending, each tick advances the frame counter by exactly one
/// (while it stays below its largest value), and every wake-up is a tick.
pub proof fn lemma_ticks_advance_frame(s: SchedulerState, n: nat)
    requires
        s.phase == Phase::Running,
        0 <= s.frame,
        s.frame + n <= MAX_FRAME,
    ensures
        run_events(s, timeouts(n)).0.phase == Phase::Running,
        run_events(s, timeouts(n)).0.frame == s.frame + n,
        forall|i: int|
            0 <= i < n ==> #[trigger] run_events(s, timeouts(n)).1[i] is Tick,
    decreases n,
{
    let evs = timeouts(n);
    lemma_run_len(s, evs);
    if n > 0 {
        assert(evs.drop_last() =~= timeouts((n - 1) as nat));
        lemma_ticks_advance_frame(s, (n - 1) as nat);
        lemma_run_len(s, evs.drop_last());
    }
}

/// While a reload is settling, neither timeouts nor further reload requests
/// advance the frame counter or start a tick.
pub proof fn lemma_no_advance_while_reloading(s: SchedulerState, evs: Seq<Event>)
    requires
        s.phase == Phase::Reloading,
        forall|i: int|
            0 <= i < evs.len() ==> #[trigger] evs[i] == Event::Timeout || evs[i] == Event::Command(
                RunnerCommand::Reload,
            ),
    ensures
        run_events(s, evs).0 == s,
        forall|i: int| 0 <= i < evs.len() ==> #[trigger] run_events(s, evs).1[i] == Action::Wait,
    decreases evs.len(),
{
    lemma_run_len(s, evs);
    if evs.len() > 0 {
        let init = evs.drop_last();
        assert forall|i: int| 0 <= i < init.len() implies #[trigger] init[i] == Event::Timeout
            || init[i] == Event::Command(RunnerCommand::Reload) by {
            assert(init[i] == evs[i]);
        }
        lemma_no_advance_while_reloading(s, init);
        lemma_run_len(s, init);
        assert(evs.last() == evs[evs.len() - 1]);
    }
}

/// A run that has produced a shutdown has ended in the terminated phase.
proof fn lemma_terminated_after_shutdown(s: SchedulerState, evs: Seq<Event>)
    ensures
        forall|i: int|
            0 <= i < evs.len() && #[trigger] run_events(s, evs).1[i] == Action::Shutdown
                ==> run_events(s, evs).0.phase == Phase::Terminated,
    decreases evs.len(),
{
    lemma_run_len(s, evs);
    if evs.len() > 0 {
        lemma_terminated_after_shutdown(s, evs.drop_last());
        lemma_run_len(s, evs.drop_last());
    }
}

/// Once a run has produced a shutdown, no later wake-up starts a tick, so the
/// module is not invoked again and makes no further `set_led` calls.
pub proof fn lemma_no_tick_after_shutdown(s: SchedulerState, evs: Seq<Event>)
    ensures
        forall|i: int, j: int|
            0 <= i < j < evs.len() && #[trigger] run_events(s, evs).1[i] == Action::Shutdown
                ==> !(#[trigger] run_events(s, evs).1[j] is Tick),
    decreases evs.len(),
{
    lemma_run_len(s, evs);
    if evs.len() > 0 {
        let init = evs.drop_last();
        lemma_no_tick_after_shutdown(s, init);
        lemma_terminated_after_shutdown(s, init);
        lemma_run_len(s, init);
        let prev = run_events(s, init);
        assert forall|i: int, j: int|
            0 <= i < j < evs.len() && #[trigger] run_events(s, evs).1[i] == Action::Shutdown
                implies !(#[trigger] run_events(s, evs).1[j] is Tick) by {
            assert(run_events(s, evs).1[i] == prev.1[i]);
            if j < init.len() {
                assert(run_events(s, evs).1[j] == prev.1[j]);
            } else {
                assert(prev.0.phase == Phase::Terminated);
            }
        }
    }
}

/// Whichever matching file name a notice carried, the watcher decides alike,
/// and the reload that a running scheduler then starts reads the one module
/// path.
pub proof fn lemma_reload_reads_canonical_path(
    s: SchedulerState,
    p1: Seq<char>,
    p2: Seq<char>,
    last: Option<u64>,
    now: u64,
)
    requires
        names_module(p1),
        names_module(p2),
        s.phase == Phase::Running,
    ensures
        debounce_step(last, names_module(p1), now) == debounce_step(last, names_module(p2), now),
        step_spec(s, Event::Command(RunnerCommand::Reload)).1 == (Action::Reload {
            path: MODULE_FILE,
            settle_ms: SETTLE_MS,
        }),
{
}

/// The frame scheduler's state: its phase, the frame counter and the
/// simulated battery charge.
pub struct Scheduler {
    phase: Phase,
    frame: i32,
    battery: u32,
}

impl View for Scheduler {
    type V = SchedulerState;

    closed spec fn view(&self) -> SchedulerState {
        SchedulerState { phase: self.phase, frame: self.frame as int, battery: self.battery as int }
    }
}

impl Scheduler {
    pub closed spec fn wf(&self) -> bool {
        0 <= self.frame && self.battery <= FULL_BATTERY
    }

    /// A running scheduler at frame `0` with a full battery.
    pub fn new() -> (s: Scheduler)
        ensures
            s.wf(),
            s@.phase == Phase::Running,
            s@.frame == 0,
            s@.battery == FULL_BATTERY,
    {
        Scheduler { phase: Phase::Running, frame: 0, battery: FULL_BATTERY }
    }

    pub fn phase(&self) -> (p: Phase)
        ensures
            p == self@.phase,
    {
        self.phase
    }

    pub fn frame(&self) -> (f: i32)
        ensures
            f as int == self@.frame,
    {
        self.frame
    }

    /// The simulated battery charge, in hundredths of a percent.
    pub fn battery(&self) -> (b: u32)
        ensures
            b as int == self@.battery,
    {
        self.battery
    }

    /// Handles one wake-up of the scheduler's thread.
    pub fn step(&mut self, ev: Event) -> (r: Action)
        requires
            old(self).wf(),
        ensures
            final(self).wf(),
            (final(self)@, r) == step_spec(old(self)@, ev),
    {
        match self.phase {
            Phase::Terminated => Action::Exit,
            Phase::Running => match ev {
                Event::Timeout => {
                    self.battery = if self.battery >= BATTERY_STEP {
                        self.battery - BATTERY_STEP
                    } else {
                        0
                    };
                    self.frame = if self.frame == MAX_FRAME { 0 } else { self.frame + 1 };
                    Action::Tick { sensor_id: SENSOR_BATTERY, value: self.battery, frame: self.frame }
                },
                Event::Command(RunnerCommand::Reload) => {
                    self.phase = Phase::Reloading;
                    Action::Reload { path: MODULE_FILE, settle_ms: SETTLE_MS }
                },
                Event::Command(RunnerCommand::Stop) => {
                    self.phase = Phase::Terminated;
                    Action::Shutdown
                },
                Event::Disconnected => {
                    self.phase = Phase::Terminated;
                    Action::Exit
                },
            },
            Phase::Reloading => match ev {
                Event::Timeout => Action::Wait,
                Event::Command(RunnerCommand::Reload) => Action::Wait,
                Event::Command(RunnerCommand::Stop) => {
                    self.phase = Phase::Terminated;
                    Action::Shutdown
                },
                Event::Disconnected => {
                    self.phase = Phase::Terminated;
                    Action::Exit
                },
            },
        }
    }

    /// The reload has been carried out, whether or not the new module loaded:
    /// ticking resumes.
    pub fn reload_done(&mut self)
        requires
            old(self).wf(),
        ensures
            final(self).wf(),
            old(self)@.phase == Phase::Reloading ==> final(self)@ == (SchedulerState {
                phase: Phase::Running,
                ..old(self)@
            }),
            old(self)@.phase != Phase::Reloading ==> final(self)@ == old(self)@,
    {
        if self.phase == Phase::Reloading {
            self.phase = Phase::Running;
        }
    }
}

} // verus!
