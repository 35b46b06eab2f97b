//! The restart policy of the engine process, as a state machine.
//!
//! The host runs the loop: it performs each action that `step` returns and
//! reports what came of it as the next event. Spawn failures and crashes are
//! retried for as long as the supervisor is running, after a flat delay;
//! a disconnect clears the running flag, after which no process is spawned.
use vstd::prelude::*;
use crate::ipc::{command_line, encode_command, IpcCommand};
use crate::json::json_text;

verus! {

/// Time units to wait after a failed spawn before trying again.
pub const SPAWN_RETRY_DELAY: u64 = 5;

/// Time units to wait after a process exits before spawning the next one.
pub const RESTART_DELAY: u64 = 1;

/// How many commands may wait in a generation's command channel.
pub const COMMAND_CHANNEL_CAPACITY: usize = 32;

/// Where the supervise loop stands.
#[derive(Clone, Copy, Debug, PartialEq, Eq, Structural)]
pub enum Phase {
    /// Never initialized.
    Idle,
    /// Locating the engine and starting a process.
    Spawning,
    /// One process is alive, with its writer and reader.
    Running,
    /// Waiting out a delay before the next spawn.
    Waiting,
    /// The loop has ended.
    Stopped,
}

/// What the host reports to the supervisor.
#[derive(Clone, Copy, Debug, PartialEq, Eq, Structural)]
pub enum SupervisorEvent {
    /// The provider was initialized.
    Initialize,
    /// The engine executable could not be found.
    EngineMissing,
    /// The process could not be started.
    SpawnFailed,
    /// A process was started.
    Spawned,
    /// The process exited.
    ProcessExited,
    /// A delay that the supervisor asked for is over.
    DelayElapsed,
    /// The provider was asked to disconnect.
    Disconnect,
}

/// What the supervisor asks the host to do.
#[derive(Clone, Copy, Debug, PartialEq, Eq, Structural)]
pub enum SupervisorAction {
    /// Locate the engine and start a process.
    Spawn,
    /// Open the command channel, start the writer and the reader, load the
    /// stored snapshot and send the `init` command.
    StartGeneration,
    /// Wait this many time units, then report `DelayElapsed`.
    Wait(u64),
    /// Abort the writer and reader of the generation that ended, then wait
    /// this many time units and report `DelayElapsed`.
    EndGeneration(u64),
    /// Send a `disconnect` command through the current writer, ignoring any
    /// failure, then terminate the process.
    Shutdown,
    /// Terminate the process that was started after a disconnect.
    DiscardSpawned,
    /// Leave the loop.
    Stop,
    /// Nothing to do.
    Nothing,
}

/// The supervisor's state: the running flag and the loop's phase.
#[derive(Clone, Copy, Debug, PartialEq, Eq, Structural)]
pub struct Supervisor {
    pub running: bool,
    pub phase: Phase,
}

/// The state and action that follow an event.
pub open spec fn transition(s: Supervisor, e: SupervisorEvent) -> (Supervisor, SupervisorAction) {
    match e {
        SupervisorEvent::Initialize => if s.phase == Phase::Idle || s.phase == Phase::Stopped {
            (Supervisor { running: true, phase: Phase::Spawning }, SupervisorAction::Spawn)
        } else {
            (s, SupervisorAction::Nothing)
        },
        SupervisorEvent::Disconnect => if s.phase == Phase::Running {
            (Supervisor { running: false, ..s }, SupervisorAction::Shutdown)
        } else {
            (Supervisor { running: false, ..s }, SupervisorAction::Nothing)
        },
        SupervisorEvent::EngineMissing => if s.phase == Phase::Spawning {
            (Supervisor { phase: Phase::Stopped, ..s }, SupervisorAction::Stop)
        } else {
            (s, SupervisorAction::Nothing)
        },
        SupervisorEvent::SpawnFailed => if s.phase == Phase::Spawning {
            (Supervisor { phase: Phase::Waiting, ..s }, SupervisorAction::Wait(SPAWN_RETRY_DELAY))
        } else {
            (s, SupervisorAction::Nothing)
        },
        SupervisorEvent::Spawned => if s.phase != Phase::Spawning {
            (s, SupervisorAction::Nothing)
        } else if s.running {
            (Supervisor { phase: Phase::Running, ..s }, SupervisorAction::StartGeneration)
        } else {
            (Supervisor { phase: Phase::Stopped, ..s }, SupervisorAction::DiscardSpawned)
        },
        SupervisorEvent::ProcessExited => if s.phase == Phase::Running {
            (Supervisor { phase: Phase::Waiting, ..s }, SupervisorAction::EndGeneration(RESTART_DELAY))
        } else {
            (s, SupervisorAction::Nothing)
        },
        SupervisorEvent::DelayElapsed => if s.phase != Phase::Waiting {
            (s, SupervisorAction::Nothing)
        } else if s.running {
            (Supervisor { phase: Phase::Spawning, ..s }, SupervisorAction::Spawn)
        } else {
            (Supervisor { phase: Phase::Stopped, ..s }, SupervisorAction::Stop)
        },
    }
}

impl Supervisor {
    /// A supervisor that has not been initialized.
    pub fn new() -> (r: Supervisor)
        ensures
            r == (Supervisor { running: false, phase: Phase::Idle }),
    {
        Supervisor { running: false, phase: Phase::Idle }
    }

    /// Whether commands can reach a process now: one is alive and no
    /// disconnect was asked for.
    pub fn accepts_commands(&self) -> (r: bool)
        ensures
            r == (self.running && self.phase == Phase::Running),
    {
        self.running && self.phase == Phase::Running
    }

    /// Takes one event and returns the action that the host performs next.
    pub fn step(&mut self, e: SupervisorEvent) -> (a: SupervisorAction)
        ensures
            (*final(self), a) == transition(*old(self), e),
    {
        let s = *self;
        let (next, action) = match e {
            SupervisorEvent::Initialize => if s.phase == Phase::Idle || s.phase == Phase::Stopped {
                (Supervisor { running: true, phase: Phase::Spawning }, SupervisorAction::Spawn)
            } else {
                (s, SupervisorAction::Nothing)
            },
            SupervisorEvent::Disconnect => if s.phase == Phase::Running {
                (Supervisor { running: false, ..s }, SupervisorAction::Shutdown)
            } else {
                (Supervisor { running: false, ..s }, SupervisorAction::Nothing)
            },
            SupervisorEvent::EngineMissing => if s.phase == Phase::Spawning {
                (Supervisor { phase: Phase::Stopped, ..s }, SupervisorAction::Stop)
            } else {
                (s, SupervisorAction::Nothing)
            },
            SupervisorEvent::SpawnFailed => if s.phase == Phase::Spawning {
                (Supervisor { phase: Phase::Waiting, ..s }, SupervisorAction::Wait(SPAWN_RETRY_DELAY))
            } else {
                (s, SupervisorAction::Nothing)
            },
            SupervisorEvent::Spawned => if s.phase != Phase::Spawning {
                (s, SupervisorAction::Nothing)
            } else if s.running {
                (Supervisor { phase: Phase::Running, ..s }, SupervisorAction::StartGeneration)
            } else {
                (Supervisor { phase: Phase::Stopped, ..s }, SupervisorAction::DiscardSpawned)
            },
            SupervisorEvent::ProcessExited => if s.phase == Phase::Running {
                (Supervisor { phase: Phase::Waiting, ..s }, SupervisorAction::EndGeneration(RESTART_DELAY))
            } else {
                (s, SupervisorAction::Nothing)
            },
            SupervisorEvent::DelayElapsed => if s.phase != Phase::Waiting {
                (s, SupervisorAction::Nothing)
            } else if s.running {
                (Supervisor { phase: Phase::Spawning, ..s }, SupervisorAction::Spawn)
            } else {
                (Supervisor { phase: Phase::Stopped, ..s }, SupervisorAction::Stop)
            },
        };
        *self = next;
        action
    }
}

/// Why a command was not handed to the engine.
#[derive(Clone, Copy, Debug, PartialEq, Eq, Structural)]
pub enum CommandRefused {
    /// No process is alive, or a disconnect was asked for.
    NotRunning,
}

impl Supervisor {
    /// The line to queue for a command, when a process can take it.
    pub fn outbound(&self, cmd: &IpcCommand) -> (r: Result<String, CommandRefused>)
        ensures
            match r {
                Ok(line) => self.running && self.phase == Phase::Running && line@ == command_line(
                    cmd.kind,
                    json_text(cmd.payload),
                ),
                Err(e) => e == CommandRefused::NotRunning && !(self.running && self.phase
                    == Phase::Running),
            },
    {
        if self.accepts_commands() {
            Ok(encode_command(cmd))
        } else {
            Err(CommandRefused::NotRunning)
        }
    }
}

/// Whether an action brings up a process or a generation.
pub open spec fn starts_process(a: SupervisorAction) -> bool {
    a == SupervisorAction::Spawn || a == SupervisorAction::StartGeneration
}

/// Once the running flag is down, only a new `Initialize` raises it again:
/// no other event spawns a process or starts a generation, and the flag
/// stays down.
pub proof fn lemma_no_spawn_after_disconnect(s: Supervisor, e: SupervisorEvent)
    requires
        !s.running,
        e != SupervisorEvent::Initialize,
    ensures
        !starts_process(transition(s, e).1),
        !transition(s, e).0.running,
{
}

/// At most one process is alive: while one runs, no event spawns another or
/// starts a second generation, and a generation starts only from a spawn.
pub proof fn lemma_one_process_at_a_time(s: Supervisor, e: SupervisorEvent)
    ensures
        s.phase == Phase::Running ==> !starts_process(transition(s, e).1),
        transition(s, e).1 == SupervisorAction::StartGeneration ==> s.phase == Phase::Spawning
            && transition(s, e).0.phase == Phase::Running,
{
}

/// A disconnect always lowers the running flag, and shuts down the process
/// exactly when one is alive.
pub proof fn lemma_disconnect_shuts_down(s: Supervisor)
    ensures
        !transition(s, SupervisorEvent::Disconnect).0.running,
        (transition(s, SupervisorEvent::Disconnect).1 == SupervisorAction::Shutdown) == (s.phase
            == Phase::Running),
{
}

/// A process that exits while the supervisor runs is followed by the end of
/// its generation, the restart delay, and a new spawn.
pub proof fn lemma_exit_restarts(s: Supervisor)
    requires
        s.running,
        s.phase == Phase::Running,
    ensures
        transition(s, SupervisorEvent::ProcessExited).1 == SupervisorAction::EndGeneration(RESTART_DELAY),
        transition(transition(s, SupervisorEvent::ProcessExited).0, SupervisorEvent::DelayElapsed).1
            == SupervisorAction::Spawn,
{
}

/// A disconnect while a process runs shuts it down, and once it has exited
/// the loop stops instead of spawning again.
pub proof fn lemma_disconnect_then_stop(s: Supervisor)
    requires
        s.phase == Phase::Running,
    ensures
        ({
            let (s1, a1) = transition(s, SupervisorEvent::Disconnect);
            let (s2, a2) = transition(s1, SupervisorEvent::ProcessExited);
            let (s3, a3) = transition(s2, SupervisorEvent::DelayElapsed);
            &&& a1 == SupervisorAction::Shutdown
            &&& !s1.running
            &&& a2 == SupervisorAction::EndGeneration(RESTART_DELAY)
            &&& a3 == SupervisorAction::Stop
            &&& s3.phase == Phase::Stopped
            &&& !s3.running
        }),
{
}

} // verus!
