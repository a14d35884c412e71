//! Bringing up the connection to the adapter, as a machine that decides and
//! never acts: it names the next piece of outside work, the host performs it
//! and reports what happened.
//!
//! Over standard streams the adapter is spawned with pipes and is ready at
//! once. Over TCP it is spawned without pipes, given a fixed time to open its
//! port, and connected to once; a refused connection ends the attempt and the
//! spawned process with it.

use crate::config::DebugConnectionType;
use vstd::prelude::*;

verus! {

/// The time a TCP adapter is given to open its port, in milliseconds.
pub const STARTUP_DELAY_MILLIS: u64 = 1000;

/// What becomes of one standard stream of the spawned process.
#[derive(Copy, Clone, Debug, PartialEq, Eq, Structural)]
pub enum StdioMode {
    Piped,
    Null,
}

/// How the adapter process is spawned.
#[derive(Copy, Clone, Debug, PartialEq, Eq, Structural)]
pub struct SpawnPlan {
    pub stdin: StdioMode,
    pub stdout: StdioMode,
    pub stderr: StdioMode,
    /// The process dies with the handle that owns it.
    pub kill_on_drop: bool,
}

/// An IPv4 address and a port.
#[derive(Copy, Clone, Debug, PartialEq, Eq, Structural)]
pub struct Endpoint {
    pub a: u8,
    pub b: u8,
    pub c: u8,
    pub d: u8,
    pub port: u16,
}

/// The streams that the transport is started on.
#[derive(Copy, Clone, Debug, PartialEq, Eq, Structural)]
pub enum Wiring {
    /// Read the process's stdout, write its stdin, capture its stderr.
    Pipes,
    /// Read and write the connected socket; there is no stderr to capture.
    Socket,
}

/// Why no client came into being.
#[derive(Copy, Clone, Debug, PartialEq, Eq, Structural)]
pub enum BootstrapError {
    /// The adapter process could not be spawned.
    Spawn,
    /// Nothing accepted the connection once the startup delay had passed.
    Connect,
    /// The host reported something that the machine had not asked for.
    OutOfOrder,
}

/// What the host reports back.
#[derive(Copy, Clone, Debug, PartialEq, Eq, Structural)]
pub enum BootstrapEvent {
    Spawned,
    SpawnFailed,
    DelayElapsed,
    Connected,
    ConnectFailed,
}

/// The next piece of outside work.
#[derive(Copy, Clone, Debug, PartialEq, Eq, Structural)]
pub enum BootstrapAction {
    Spawn(SpawnPlan),
    Wait { millis: u64 },
    Connect(Endpoint),
    /// Start the transport on these streams and build the client.
    Start(Wiring),
    /// Give up with this error, and first terminate the spawned process
    /// where there is one.
    Abort { error: BootstrapError, terminate_process: bool },
    /// The attempt is over; there is nothing left to do.
    Idle,
}

#[derive(Copy, Clone, Debug, PartialEq, Eq, Structural)]
pub enum BootstrapState {
    Spawning,
    Waiting,
    Connecting,
    Ready,
    Failed(BootstrapError),
}

/// One attempt to reach an adapter.
#[derive(Copy, Clone, Debug, PartialEq, Eq, Structural)]
pub struct Bootstrap {
    pub connection: DebugConnectionType,
    pub port: u16,
    pub state: BootstrapState,
}

/// The spawn settings of each connection type.
pub open spec fn spawn_plan(connection: DebugConnectionType) -> SpawnPlan {
    let mode = match connection {
        DebugConnectionType::STDIO => StdioMode::Piped,
        DebugConnectionType::TCP => StdioMode::Null,
    };
    SpawnPlan { stdin: mode, stdout: mode, stderr: mode, kill_on_drop: true }
}

/// The loopback address at `port`.
pub open spec fn loopback(port: u16) -> Endpoint {
    Endpoint { a: 127, b: 0, c: 0, d: 1, port }
}

/// Whether a process exists in this state, so that giving up must end it.
pub open spec fn process_is_live(state: BootstrapState) -> bool {
    state == BootstrapState::Waiting || state == BootstrapState::Connecting || state
        == BootstrapState::Ready
}

/// The transition table: the state that follows `event`, and the work that it
/// asks for.
pub open spec fn step(boot: Bootstrap, event: BootstrapEvent) -> (BootstrapState, BootstrapAction) {
    match (boot.state, event) {
        (BootstrapState::Spawning, BootstrapEvent::Spawned) => match boot.connection {
            DebugConnectionType::STDIO => (
                BootstrapState::Ready,
                BootstrapAction::Start(Wiring::Pipes),
            ),
            DebugConnectionType::TCP => (
                BootstrapState::Waiting,
                BootstrapAction::Wait { millis: STARTUP_DELAY_MILLIS },
            ),
        },
        (BootstrapState::Spawning, BootstrapEvent::SpawnFailed) => (
            BootstrapState::Failed(BootstrapError::Spawn),
            BootstrapAction::Abort { error: BootstrapError::Spawn, terminate_process: false },
        ),
        (BootstrapState::Waiting, BootstrapEvent::DelayElapsed) => (
            BootstrapState::Connecting,
            BootstrapAction::Connect(loopback(boot.port)),
        ),
        (BootstrapState::Connecting, BootstrapEvent::Connected) => (
            BootstrapState::Ready,
            BootstrapAction::Start(Wiring::Socket),
        ),
        (BootstrapState::Connecting, BootstrapEvent::ConnectFailed) => (
            BootstrapState::Failed(BootstrapError::Connect),
            BootstrapAction::Abort { error: BootstrapError::Connect, terminate_process: true },
        ),
        (BootstrapState::Ready, _) => (boot.state, BootstrapAction::Idle),
        (BootstrapState::Failed(_), _) => (boot.state, BootstrapAction::Idle),
        _ => (
            BootstrapState::Failed(BootstrapError::OutOfOrder),
            BootstrapAction::Abort {
                error: BootstrapError::OutOfOrder,
                terminate_process: process_is_live(boot.state),
            },
        ),
    }
}

impl Bootstrap {
    /// Begins an attempt. The first piece of work is always to spawn the
    /// adapter, with pipes for standard streams and without for TCP.
    pub fn new(connection: DebugConnectionType, port: u16) -> (begun: (Self, BootstrapAction))
        ensures
            begun.0 == (Bootstrap { connection, port, state: BootstrapState::Spawning }),
            begun.1 == BootstrapAction::Spawn(spawn_plan(connection)),
    {
        let mode = match connection {
            DebugConnectionType::STDIO => StdioMode::Piped,
            DebugConnectionType::TCP => StdioMode::Null,
        };
        let plan = SpawnPlan { stdin: mode, stdout: mode, stderr: mode, kill_on_drop: true };
        (Bootstrap { connection, port, state: BootstrapState::Spawning }, BootstrapAction::Spawn(plan))
    }

    /// Takes in what the host reports and names the next piece of work.
    pub fn advance(&mut self, event: BootstrapEvent) -> (action: BootstrapAction)
        ensures
            final(self).connection == old(self).connection,
            final(self).port == old(self).port,
            final(self).state == step(*old(self), event).0,
            action == step(*old(self), event).1,
    {
        let (state, action) = match self.state {
            BootstrapState::Spawning => match event {
                BootstrapEvent::Spawned => match self.connection {
                    DebugConnectionType::STDIO => (
                        BootstrapState::Ready,
                        BootstrapAction::Start(Wiring::Pipes),
                    ),
                    DebugConnectionType::TCP => (
                        BootstrapState::Waiting,
                        BootstrapAction::Wait { millis: STARTUP_DELAY_MILLIS },
                    ),
                },
                BootstrapEvent::SpawnFailed => (
                    BootstrapState::Failed(BootstrapError::Spawn),
                    BootstrapAction::Abort {
                        error: BootstrapError::Spawn,
                        terminate_process: false,
                    },
                ),
                _ => (
                    BootstrapState::Failed(BootstrapError::OutOfOrder),
                    BootstrapAction::Abort {
                        error: BootstrapError::OutOfOrder,
                        terminate_process: false,
                    },
                ),
            },
            BootstrapState::Waiting => match event {
                BootstrapEvent::DelayElapsed => (
                    BootstrapState::Connecting,
                    BootstrapAction::Connect(
                        Endpoint { a: 127, b: 0, c: 0, d: 1, port: self.port },
                    ),
                ),
                _ => (
                    BootstrapState::Failed(BootstrapError::OutOfOrder),
                    BootstrapAction::Abort {
                        error: BootstrapError::OutOfOrder,
                        terminate_process: true,
                    },
                ),
            },
            BootstrapState::Connecting => match event {
                BootstrapEvent::Connected => (
                    BootstrapState::Ready,
                    BootstrapAction::Start(Wiring::Socket),
                ),
                BootstrapEvent::ConnectFailed => (
                    BootstrapState::Failed(BootstrapError::Connect),
                    BootstrapAction::Abort {
                        error: BootstrapError::Connect,
                        terminate_process: true,
                    },
                ),
                _ => (
                    BootstrapState::Failed(BootstrapError::OutOfOrder),
                    BootstrapAction::Abort {
                        error: BootstrapError::OutOfOrder,
                        terminate_process: true,
                    },
                ),
            },
            BootstrapState::Ready => (self.state, BootstrapAction::Idle),
            BootstrapState::Failed(_) => (self.state, BootstrapAction::Idle),
        };
        self.state = state;
        action
    }

    /// Whether the transport was started and a client may be built.
    pub fn is_ready(&self) -> (ready: bool)
        ensures
            ready == (self.state == BootstrapState::Ready),
    {
        matches!(self.state, BootstrapState::Ready)
    }

    /// The error that ended the attempt, if one did.
    pub fn failure(&self) -> (error: Option<BootstrapError>)
        ensures
            error == match self.state {
                BootstrapState::Failed(e) => Some(e),
                _ => None::<BootstrapError>,
            },
    {
        match self.state {
            BootstrapState::Failed(e) => Some(e),
            _ => None,
        }
    }
}

/// There is no second attempt: once a bootstrap has failed, whatever the
/// host reports, it stays failed with the same error and asks for nothing.
pub proof fn a_failed_attempt_stays_failed(boot: Bootstrap, event: BootstrapEvent)
    requires
        boot.state is Failed,
    ensures
        step(boot, event) == (boot.state, BootstrapAction::Idle),
{
}

/// No process is left behind: whenever an attempt is given up, the process
/// is terminated exactly if one was spawned. A connection that is refused
/// always ends with the process terminated.
pub proof fn giving_up_terminates_the_process(boot: Bootstrap, event: BootstrapEvent)
    ensures
        step(boot, event).1 matches BootstrapAction::Abort { terminate_process, .. }
            ==> terminate_process == process_is_live(boot.state),
        boot.state == BootstrapState::Connecting && event == BootstrapEvent::ConnectFailed ==> step(
            boot,
            event,
        ) == (
            BootstrapState::Failed(BootstrapError::Connect),
            BootstrapAction::Abort { error: BootstrapError::Connect, terminate_process: true },
        ),
{
}

/// The transport is started only on a connection that stands: over standard
/// streams right after the spawn, over TCP only after a successful connect,
/// which in turn is asked for only once the startup delay has passed.
pub proof fn ready_only_on_a_standing_connection(boot: Bootstrap, event: BootstrapEvent)
    requires
        boot.state != BootstrapState::Ready,
        step(boot, event).0 == BootstrapState::Ready,
    ensures
        (boot.state == BootstrapState::Spawning && boot.connection == DebugConnectionType::STDIO
            && event == BootstrapEvent::Spawned && step(boot, event).1 == BootstrapAction::Start(
            Wiring::Pipes,
        )) || (boot.state == BootstrapState::Connecting && event == BootstrapEvent::Connected
            && step(boot, event).1 == BootstrapAction::Start(Wiring::Socket)),
{
}

/// The client connects to the loopback address at the configured port and
/// nowhere else, and only when the startup delay has passed.
pub proof fn connects_to_loopback_after_the_delay(boot: Bootstrap, event: BootstrapEvent)
    requires
        step(boot, event).1 is Connect,
    ensures
        boot.state == BootstrapState::Waiting,
        event == BootstrapEvent::DelayElapsed,
        step(boot, event).1 == BootstrapAction::Connect(loopback(boot.port)),
        step(boot, event).0 == BootstrapState::Connecting,
{
}

} // verus!
