//! The supervisor: a state machine that keeps one child process alive and
//! restarts or stops it when the control file says so.
//!
//! The machine performs no I/O. In every phase it has one [`Action`] pending,
//! which the caller carries out; the caller then reports how that went as an
//! [`Event`] to [`Supervisor::step`], which moves the machine on, says what
//! to tell the user and names the next action.
//!
//! ```text
//! Preparing --control file ready--> Attaching --watcher attached--> Spawning
//! Spawning  --child launched------> Running
//! Running   --poll: quit----------> Stopping(Quit)    --told to terminate--> Terminated
//! Running   --poll: restart-------> Stopping(Restart) --told to terminate--> Checking
//! Running   --poll: neither-------> Checking
//! Checking  --child has exited, or a restart was requested--> Spawning
//! Checking  --otherwise-----------> Running
//! ```
//!
//! A failure to prepare, attach or spawn ends the run in `Failed`.

use crate::watch::{Signals, Verdict};
use vstd::prelude::*;

verus! {

/// What cannot be recovered from. Each of these ends the run.
#[derive(Clone, Copy, Debug, PartialEq, Eq, Structural)]
pub enum Fatal {
    /// The control file could not be created.
    Control,
    /// The watcher could not be attached to the control file.
    Watch,
    /// The command could not be launched.
    Spawn,
}

/// Why the child is being stopped.
#[derive(Clone, Copy, Debug, PartialEq, Eq, Structural)]
pub enum StopReason {
    /// To start it again.
    Restart,
    /// To end the run.
    Quit,
}

/// Where the supervisor stands.
#[derive(Clone, Copy, Debug, PartialEq, Eq, Structural)]
pub enum Phase {
    /// The control file is being created.
    Preparing,
    /// The watcher is being attached to the control file.
    Attaching,
    /// The command is being launched.
    Spawning,
    /// The child is running and the watcher is being polled.
    Running,
    /// The child is being told to terminate.
    Stopping(StopReason),
    /// The child is being checked for having exited. `restart` says that a
    /// restart was requested in this cycle.
    Checking { restart: bool },
    /// The run ended because it was told to quit.
    Terminated,
    /// The run ended in an unrecoverable failure.
    Failed(Fatal),
}

/// What the caller is to do for the supervisor.
#[derive(Clone, Copy, Debug, PartialEq, Eq, Structural)]
pub enum Action {
    /// Create the control file, or truncate it.
    InitControl,
    /// Attach the watcher to the control file.
    OpenWatch,
    /// Launch the command.
    Spawn,
    /// Wait for what the watcher delivers, no longer than the poll timeout.
    Poll,
    /// Send the child the signal to terminate.
    Kill,
    /// Check, without blocking, whether the child has exited.
    CheckChild,
    /// Leave the loop and end the process.
    Finish(Outcome),
}

/// How a run ended.
#[derive(Clone, Copy, Debug, PartialEq, Eq, Structural)]
pub enum Outcome {
    /// It was told to quit.
    Quit,
    /// It failed before a child could be supervised.
    Fatal(Fatal),
}

/// How the pending action went.
#[derive(Clone, Copy, Debug, PartialEq, Eq)]
pub enum Event {
    /// The control file exists.
    ControlReady,
    /// The control file could not be created.
    ControlFailed,
    /// The watcher is attached.
    WatchOpened,
    /// The watcher could not be attached.
    WatchFailed,
    /// The child is running.
    Spawned,
    /// The command could not be launched.
    SpawnFailed,
    /// The poll is over; these are the signals it gathered.
    Polled(Signals),
    /// The child was told to terminate.
    KillSent,
    /// The child could not be told to terminate.
    KillFailed,
    /// The child has exited, with this exit code if it has one.
    ChildExited(Option<i32>),
    /// The child has not exited.
    ChildAlive,
    /// The child's status could not be read.
    CheckFailed,
}

/// Something to tell the user.
#[derive(Clone, Copy, Debug, PartialEq, Eq)]
pub enum Notice {
    /// The child exited, with this exit code if it has one.
    ChildExited(Option<i32>),
    /// The child is about to be started again.
    Restarting,
    /// The run is over.
    Quitting,
    /// The watcher could not be read. The cycle goes on as if nothing had
    /// arrived.
    WatchFault,
    /// The child could not be told to terminate. The cycle goes on as if it
    /// had been.
    KillFailed,
    /// The child's status could not be read. The cycle goes on as if the
    /// child were alive.
    CheckFailed,
    /// The run cannot go on.
    Fatal(Fatal),
}

/// What [`Supervisor::step`] hands back.
#[derive(Debug)]
pub struct Step {
    /// What to tell the user, in this order.
    pub notices: Vec<Notice>,
    /// What to do next.
    pub action: Action,
}

/// The action that is pending in a phase.
pub open spec fn pending(phase: Phase) -> Action {
    match phase {
        Phase::Preparing => Action::InitControl,
        Phase::Attaching => Action::OpenWatch,
        Phase::Spawning => Action::Spawn,
        Phase::Running => Action::Poll,
        Phase::Stopping(_) => Action::Kill,
        Phase::Checking { .. } => Action::CheckChild,
        Phase::Terminated => Action::Finish(Outcome::Quit),
        Phase::Failed(fatal) => Action::Finish(Outcome::Fatal(fatal)),
    }
}

/// Whether an event reports on the action that is pending in a phase. An
/// event that does not is dropped: it changes nothing.
pub open spec fn answers(phase: Phase, event: Event) -> bool {
    match phase {
        Phase::Preparing => event is ControlReady || event is ControlFailed,
        Phase::Attaching => event is WatchOpened || event is WatchFailed,
        Phase::Spawning => event is Spawned || event is SpawnFailed,
        Phase::Running => event is Polled,
        Phase::Stopping(_) => event is KillSent || event is KillFailed,
        Phase::Checking { .. } => event is ChildExited || event is ChildAlive
            || event is CheckFailed,
        Phase::Terminated => false,
        Phase::Failed(_) => false,
    }
}

/// The phase that follows `phase` when `event` is reported.
///
/// - A failure to prepare, attach or spawn is fatal.
/// - A poll leads to stopping the child if quitting or a restart was
///   requested, quitting first, and to checking on the child otherwise.
/// - Once the child was told to terminate, whether or not that worked, a
///   quit ends the run and a restart goes on to check on the child.
/// - After the check the command is launched again if the child has exited
///   or a restart was requested; otherwise the child keeps running.
pub open spec fn next(phase: Phase, event: Event) -> Phase {
    match (phase, event) {
        (Phase::Preparing, Event::ControlReady) => Phase::Attaching,
        (Phase::Preparing, Event::ControlFailed) => Phase::Failed(Fatal::Control),
        (Phase::Attaching, Event::WatchOpened) => Phase::Spawning,
        (Phase::Attaching, Event::WatchFailed) => Phase::Failed(Fatal::Watch),
        (Phase::Spawning, Event::Spawned) => Phase::Running,
        (Phase::Spawning, Event::SpawnFailed) => Phase::Failed(Fatal::Spawn),
        (Phase::Running, Event::Polled(signals)) => match signals.decided() {
            Verdict::Quit => Phase::Stopping(StopReason::Quit),
            Verdict::Restart => Phase::Stopping(StopReason::Restart),
            Verdict::Continue => Phase::Checking { restart: false },
        },
        (Phase::Stopping(StopReason::Quit), Event::KillSent) => Phase::Terminated,
        (Phase::Stopping(StopReason::Quit), Event::KillFailed) => Phase::Terminated,
        (Phase::Stopping(StopReason::Restart), Event::KillSent) => Phase::Checking {
            restart: true,
        },
        (Phase::Stopping(StopReason::Restart), Event::KillFailed) => Phase::Checking {
            restart: true,
        },
        (Phase::Checking { .. }, Event::ChildExited(_)) => Phase::Spawning,
        (Phase::Checking { restart }, Event::ChildAlive) => if restart {
            Phase::Spawning
        } else {
            Phase::Running
        },
        (Phase::Checking { restart }, Event::CheckFailed) => if restart {
            Phase::Spawning
        } else {
            Phase::Running
        },
        _ => phase,
    }
}

/// What the user is told when `event` is reported in `phase`.
///
/// Every failure is reported. A child's exit is reported with its code. A
/// restart is announced when the command is about to be launched again, and
/// quitting when the run ends by request.
pub open spec fn told(phase: Phase, event: Event) -> Seq<Notice> {
    match (phase, event) {
        (Phase::Preparing, Event::ControlFailed) => seq![Notice::Fatal(Fatal::Control)],
        (Phase::Attaching, Event::WatchFailed) => seq![Notice::Fatal(Fatal::Watch)],
        (Phase::Spawning, Event::SpawnFailed) => seq![Notice::Fatal(Fatal::Spawn)],
        (Phase::Running, Event::Polled(signals)) => if signals.fault {
            seq![Notice::WatchFault]
        } else {
            seq![]
        },
        (Phase::Stopping(StopReason::Quit), Event::KillSent) => seq![Notice::Quitting],
        (Phase::Stopping(StopReason::Quit), Event::KillFailed) => seq![
            Notice::KillFailed,
            Notice::Quitting,
        ],
        (Phase::Stopping(StopReason::Restart), Event::KillFailed) => seq![Notice::KillFailed],
        (Phase::Checking { .. }, Event::ChildExited(code)) => seq![
            Notice::ChildExited(code),
            Notice::Restarting,
        ],
        (Phase::Checking { restart }, Event::ChildAlive) => if restart {
            seq![Notice::Restarting]
        } else {
            seq![]
        },
        (Phase::Checking { restart }, Event::CheckFailed) => if restart {
            seq![Notice::CheckFailed, Notice::Restarting]
        } else {
            seq![Notice::CheckFailed]
        },
        _ => seq![],
    }
}

/// Whether the run is still meant to go on: it has neither been told to quit
/// nor failed.
pub open spec fn continuing(phase: Phase) -> bool {
    !(phase == Phase::Stopping(StopReason::Quit) || phase is Terminated || phase is Failed)
}

/// How the run ended, where it has.
pub open spec fn ended(phase: Phase) -> Option<Outcome> {
    match phase {
        Phase::Terminated => Some(Outcome::Quit),
        Phase::Failed(fatal) => Some(Outcome::Fatal(fatal)),
        _ => None,
    }
}

impl Outcome {
    /// The exit code of the process: zero after a quit, one after a failure.
    pub open spec fn code(self) -> int {
        match self {
            Outcome::Quit => 0,
            Outcome::Fatal(_) => 1,
        }
    }

    /// The exit code of the process.
    pub fn exit_code(self) -> (code: u8)
        ensures
            code == self.code(),
            code == 0 <==> self is Quit,
    {
        match self {
            Outcome::Quit => 0,
            Outcome::Fatal(_) => 1,
        }
    }
}

/// The supervisor's state.
#[derive(Debug)]
pub struct Supervisor {
    phase: Phase,
}

impl View for Supervisor {
    type V = Phase;

    closed spec fn view(&self) -> Phase {
        self.phase
    }
}

impl Supervisor {
    /// A supervisor that has done nothing yet. Its first action is to create
    /// the control file.
    pub fn new() -> (supervisor: Supervisor)
        ensures
            supervisor@ == Phase::Preparing,
    {
        Supervisor { phase: Phase::Preparing }
    }

    /// The phase the supervisor is in.
    pub fn phase(&self) -> (phase: Phase)
        ensures
            phase == self@,
    {
        self.phase
    }

    /// The action that is pending.
    pub fn action(&self) -> (action: Action)
        ensures
            action == pending(self@),
    {
        match self.phase {
            Phase::Preparing => Action::InitControl,
            Phase::Attaching => Action::OpenWatch,
            Phase::Spawning => Action::Spawn,
            Phase::Running => Action::Poll,
            Phase::Stopping(_) => Action::Kill,
            Phase::Checking { .. } => Action::CheckChild,
            Phase::Terminated => Action::Finish(Outcome::Quit),
            Phase::Failed(fatal) => Action::Finish(Outcome::Fatal(fatal)),
        }
    }

    /// Whether the run is still meant to go on. Once this is false it stays
    /// false, and the command is not launched again.
    pub fn keep_going(&self) -> (going: bool)
        ensures
            going == continuing(self@),
    {
        match self.phase {
            Phase::Stopping(StopReason::Quit) => false,
            Phase::Terminated => false,
            Phase::Failed(_) => false,
            _ => true,
        }
    }

    /// How the run ended, or `None` while it is going on.
    pub fn outcome(&self) -> (outcome: Option<Outcome>)
        ensures
            outcome == ended(self@),
            outcome is Some <==> pending(self@) is Finish,
    {
        match self.phase {
            Phase::Terminated => Some(Outcome::Quit),
            Phase::Failed(fatal) => Some(Outcome::Fatal(fatal)),
            _ => None,
        }
    }

    /// Takes in how the pending action went and moves on.
    ///
    /// An event that does not report on the pending action is dropped: the
    /// phase stays, nothing is told, and the same action is pending still.
    pub fn step(&mut self, event: Event) -> (step: Step)
        ensures
            final(self)@ == next(old(self)@, event),
            step.notices@ == told(old(self)@, event),
            step.action == pending(final(self)@),
            !answers(old(self)@, event) ==> final(self)@ == old(self)@ && step.notices@.len() == 0,
    {
        let mut notices: Vec<Notice> = Vec::new();
        let phase = match (self.phase, event) {
            (Phase::Preparing, Event::ControlReady) => Phase::Attaching,
            (Phase::Preparing, Event::ControlFailed) => {
                notices.push(Notice::Fatal(Fatal::Control));
                Phase::Failed(Fatal::Control)
            },
            (Phase::Attaching, Event::WatchOpened) => Phase::Spawning,
            (Phase::Attaching, Event::WatchFailed) => {
                notices.push(Notice::Fatal(Fatal::Watch));
                Phase::Failed(Fatal::Watch)
            },
            (Phase::Spawning, Event::Spawned) => Phase::Running,
            (Phase::Spawning, Event::SpawnFailed) => {
                notices.push(Notice::Fatal(Fatal::Spawn));
                Phase::Failed(Fatal::Spawn)
            },
            (Phase::Running, Event::Polled(signals)) => {
                if signals.fault {
                    notices.push(Notice::WatchFault);
                }
                match signals.verdict() {
                    Verdict::Quit => Phase::Stopping(StopReason::Quit),
                    Verdict::Restart => Phase::Stopping(StopReason::Restart),
                    Verdict::Continue => Phase::Checking { restart: false },
                }
            },
            (Phase::Stopping(reason), Event::KillSent) => after_kill(reason, &mut notices),
            (Phase::Stopping(reason), Event::KillFailed) => {
                notices.push(Notice::KillFailed);
                after_kill(reason, &mut notices)
            },
            (Phase::Checking { .. }, Event::ChildExited(code)) => {
                notices.push(Notice::ChildExited(code));
                notices.push(Notice::Restarting);
                Phase::Spawning
            },
            (Phase::Checking { restart }, Event::ChildAlive) => after_check(restart, &mut notices),
            (Phase::Checking { restart }, Event::CheckFailed) => {
                notices.push(Notice::CheckFailed);
                after_check(restart, &mut notices)
            },
            (phase, _) => phase,
        };
        self.phase = phase;
        let action = self.action();
        assert(notices@ =~= told(old(self)@, event));
        Step { notices, action }
    }
}

/// Where a cycle goes once the child was told to terminate: a quit ends the
/// run and says so, a restart goes on to check on the child.
fn after_kill(reason: StopReason, notices: &mut Vec<Notice>) -> (phase: Phase)
    ensures
        phase == match reason {
            StopReason::Quit => Phase::Terminated,
            StopReason::Restart => Phase::Checking { restart: true },
        },
        final(notices)@ == match reason {
            StopReason::Quit => old(notices)@.push(Notice::Quitting),
            StopReason::Restart => old(notices)@,
        },
{
    match reason {
        StopReason::Quit => {
            notices.push(Notice::Quitting);
            Phase::Terminated
        },
        StopReason::Restart => Phase::Checking { restart: true },
    }
}

/// Where a cycle goes when the child was not seen to have exited: on to a
/// new launch if a restart was requested, which is announced, and back to
/// polling otherwise.
fn after_check(restart: bool, notices: &mut Vec<Notice>) -> (phase: Phase)
    ensures
        phase == if restart {
            Phase::Spawning
        } else {
            Phase::Running
        },
        final(notices)@ == if restart {
            old(notices)@.push(Notice::Restarting)
        } else {
            old(notices)@
        },
{
    if restart {
        notices.push(Notice::Restarting);
        Phase::Spawning
    } else {
        Phase::Running
    }
}

} // verus!
