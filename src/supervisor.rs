//! The decisions of the process supervisor, as a state machine: the caller
//! performs each action (spawn, pump, wait, sleep, kill, exit) and reports
//! what happened as the next event.
use vstd::prelude::*;
use vstd::string::*;
use crate::text::str_eq;

verus! {

/// How long the cancellation handler waits, in milliseconds, so that the last
/// lines of a killed child can still be written.
pub const GRACE_MILLIS: u64 = 100;

/// The exit code of the wrapper when the child cannot be started.
pub const LAUNCH_FAILURE_CODE: i32 = 1;

/// The process-wide settings, fixed before the first run.
pub struct Settings {
    /// Watch interval in milliseconds; 0 runs the command once.
    pub watch_millis: u64,
    /// Report the elapsed time before exiting.
    pub time: bool,
    /// Use the larger-buffered writer.
    pub boost: bool,
    /// Write plain text without escape sequences.
    pub nocolor: bool,
    /// Color unknown subcommands with the generic rules.
    pub universal: bool,
    /// The subcommand being wrapped.
    pub subcommand_name: String,
}

/// Where a run stands.
#[derive(Clone, Copy, Debug, PartialEq, Eq, Structural)]
pub enum Phase {
    Idle,
    Spawning,
    Running,
    Draining,
    Sleeping,
    Finished,
}

/// What the caller reports back.
#[derive(Clone, Copy, Debug, PartialEq, Eq, Structural)]
pub enum Event {
    /// Begin the first run.
    Start,
    /// The child was started with both output streams piped.
    Spawned,
    /// The child could not be started.
    SpawnFailed,
    /// The child exited, with its exit code if it had one.
    ChildExited(Option<i32>),
    /// Both stream pumps have finished writing.
    PumpsJoined,
    /// The pause between two runs is over.
    Slept,
    /// The user asked to stop.
    Interrupted,
}

/// What the caller is to do next.
#[derive(Clone, Copy, Debug, PartialEq, Eq, Structural)]
pub enum Action {
    /// Start the child, clearing the screen first when asked.
    Spawn { clear_screen: bool },
    /// Start one pump per output stream, then wait for the child to exit.
    StartPumps,
    /// Wait until both pumps have written everything.
    JoinPumps,
    /// Pause for this many milliseconds.
    Sleep(u64),
    /// Report that the child could not be started, and exit with this code.
    LaunchFailed(i32),
    /// Kill the child, ignoring a failure, wait this many milliseconds, and exit.
    KillAndExit { grace_millis: u64, code: i32, report_time: bool },
    /// Exit with this code, reporting the elapsed time first when asked.
    Exit { code: i32, report_time: bool },
    /// Nothing: the event does not apply in this phase.
    Ignore,
}

/// The supervisor's state: the phase, the exit code of the last child, and
/// whether the user asked to stop.
#[derive(Clone, Copy, Debug, PartialEq, Eq, Structural)]
pub struct Supervisor {
    pub phase: Phase,
    pub exit_code: i32,
    pub cancelled: bool,
}

/// The next state and action, for a watch interval `watch` (0: off) and the
/// timing flag `time`.
pub open spec fn next_spec(s: Supervisor, watch: u64, time: bool, e: Event) -> (Supervisor, Action) {
    match (s.phase, e) {
        (Phase::Finished, _) => (s, Action::Ignore),
        (_, Event::Interrupted) => (
            Supervisor { phase: Phase::Finished, exit_code: 0, cancelled: true },
            Action::KillAndExit { grace_millis: GRACE_MILLIS, code: 0, report_time: time },
        ),
        (Phase::Idle, Event::Start) => (
            Supervisor { phase: Phase::Spawning, ..s },
            Action::Spawn { clear_screen: watch > 0 },
        ),
        (Phase::Spawning, Event::Spawned) => (
            Supervisor { phase: Phase::Running, ..s },
            Action::StartPumps,
        ),
        (Phase::Spawning, Event::SpawnFailed) => (
            Supervisor { phase: Phase::Finished, exit_code: LAUNCH_FAILURE_CODE, ..s },
            Action::LaunchFailed(LAUNCH_FAILURE_CODE),
        ),
        (Phase::Running, Event::ChildExited(code)) => (
            Supervisor {
                phase: Phase::Draining,
                exit_code: match code {
                    Some(c) => c,
                    None => 0,
                },
                ..s
            },
            Action::JoinPumps,
        ),
        (Phase::Draining, Event::PumpsJoined) => if watch == 0 || s.cancelled {
            (
                Supervisor { phase: Phase::Finished, ..s },
                Action::Exit { code: s.exit_code, report_time: time },
            )
        } else {
            (Supervisor { phase: Phase::Sleeping, ..s }, Action::Sleep(watch))
        },
        (Phase::Sleeping, Event::Slept) => if s.cancelled {
            (
                Supervisor { phase: Phase::Finished, ..s },
                Action::Exit { code: s.exit_code, report_time: time },
            )
        } else {
            (Supervisor { phase: Phase::Spawning, ..s }, Action::Spawn { clear_screen: true })
        },
        _ => (s, Action::Ignore),
    }
}

/// What holds of every state a run reaches: without watching, no run is
/// ever between two spawns.
pub open spec fn run_invariant(s: Supervisor, watch: u64) -> bool {
    watch == 0 ==> s.phase != Phase::Sleeping
}

/// Without watching, a run never sleeps and never clears the screen: it
/// spawns once, drains, and exits with the child's code. Every event keeps
/// this so from a fresh supervisor on.
pub proof fn lemma_no_watch_runs_once(s: Supervisor, time: bool, e: Event)
    requires
        run_invariant(s, 0),
    ensures
        run_invariant(next_spec(s, 0, time, e).0, 0),
        !(next_spec(s, 0, time, e).1 is Sleep),
        next_spec(s, 0, time, e).1 != (Action::Spawn { clear_screen: true }),
        s.phase == Phase::Draining && e == Event::PumpsJoined ==> next_spec(s, 0, time, e).1 == (
        Action::Exit { code: s.exit_code, report_time: time }),
{
}

/// An interrupt, in any phase of a run that is not over, kills the child,
/// waits the grace period and exits with 0; nothing follows it.
pub proof fn lemma_interrupt_exits_zero(s: Supervisor, watch: u64, time: bool, e: Event)
    requires
        s.phase != Phase::Finished,
    ensures
        next_spec(s, watch, time, Event::Interrupted).1 == (Action::KillAndExit {
            grace_millis: GRACE_MILLIS,
            code: 0,
            report_time: time,
        }),
        next_spec(next_spec(s, watch, time, Event::Interrupted).0, watch, time, e).1 == Action::Ignore,
{
}

impl Supervisor {
    /// A supervisor that has not started yet.
    pub fn new() -> (r: Supervisor)
        ensures
            r == (Supervisor { phase: Phase::Idle, exit_code: 0, cancelled: false }),
            forall|watch: u64| run_invariant(r, watch),
    {
        Supervisor { phase: Phase::Idle, exit_code: 0, cancelled: false }
    }

    /// Takes one event: moves to the next phase and says what to do.
    ///
    /// A run goes Idle, Spawning, Running, Draining; then it exits with the
    /// child's code (0 when it had none), or, in watch mode, sleeps the
    /// interval and spawns again with a cleared screen. A launch failure ends
    /// the whole run, in watch mode too. An interrupt in any phase kills the
    /// child, waits the grace period and exits with 0.
    pub fn step(&mut self, settings: &Settings, event: Event) -> (r: Action)
        ensures
            (*final(self), r) == next_spec(*old(self), settings.watch_millis, settings.time, event),
    {
        let time = settings.time;
        let watch = settings.watch_millis;
        if self.phase == Phase::Finished {
            return Action::Ignore;
        }
        if let Event::Interrupted = event {
            self.phase = Phase::Finished;
            self.exit_code = 0;
            self.cancelled = true;
            return Action::KillAndExit { grace_millis: GRACE_MILLIS, code: 0, report_time: time };
        }
        match (self.phase, event) {
            (Phase::Idle, Event::Start) => {
                self.phase = Phase::Spawning;
                Action::Spawn { clear_screen: watch > 0 }
            },
            (Phase::Spawning, Event::Spawned) => {
                self.phase = Phase::Running;
                Action::StartPumps
            },
            (Phase::Spawning, Event::SpawnFailed) => {
                self.phase = Phase::Finished;
                self.exit_code = LAUNCH_FAILURE_CODE;
                Action::LaunchFailed(LAUNCH_FAILURE_CODE)
            },
            (Phase::Running, Event::ChildExited(code)) => {
                self.phase = Phase::Draining;
                self.exit_code = match code {
                    Some(c) => c,
                    None => 0,
                };
                Action::JoinPumps
            },
            (Phase::Draining, Event::PumpsJoined) => {
                if watch == 0 || self.cancelled {
                    self.phase = Phase::Finished;
                    Action::Exit { code: self.exit_code, report_time: time }
                } else {
                    self.phase = Phase::Sleeping;
                    Action::Sleep(watch)
                }
            },
            (Phase::Sleeping, Event::Slept) => {
                if self.cancelled {
                    self.phase = Phase::Finished;
                    Action::Exit { code: self.exit_code, report_time: time }
                } else {
                    self.phase = Phase::Spawning;
                    Action::Spawn { clear_screen: true }
                }
            },
            _ => Action::Ignore,
        }
    }

    /// Whether the run is over.
    pub fn is_finished(&self) -> (r: bool)
        ensures
            r == (self.phase == Phase::Finished),
    {
        self.phase == Phase::Finished
    }
}

/// Where the wrapped command starts in the wrapper's own arguments: the first
/// argument equal to the subcommand's name.
pub fn arg_start(args: &Vec<String>, name: &str) -> (r: Option<usize>)
    ensures
        match r {
            Some(i) => i < args@.len() && args@[i as int]@ == name@ && forall|j: int|
                0 <= j < i ==> (#[trigger] args@[j])@ != name@,
            None => forall|j: int| 0 <= j < args@.len() ==> (#[trigger] args@[j])@ != name@,
        },
{
    let mut i: usize = 0;
    while i < args.len()
        invariant
            i <= args@.len(),
            forall|j: int| 0 <= j < i ==> (#[trigger] args@[j])@ != name@,
        decreases args.len() - i,
    {
        if str_eq(args[i].as_str(), name) {
            return Some(i);
        }
        i += 1;
    }
    None
}

} // verus!
