//! Life cycle of the desktop application's IPC server.
//!
//! `start` may be called more than once (every setup path calls it); only the
//! first call launches the server task, which restarts the listener a second
//! after each crash. Calls from several threads go through one lock that
//! holds the `IpcServerStart`, so they take effect one after another.

use vstd::prelude::*;

verus! {

/// The name of the pipe on which commands arrive.
pub const PIPE_NAME: &'static str = "\\\\.\\pipe\\winforge";

/// The seconds to wait before restarting a crashed listener.
pub const RESTART_DELAY_SECS: u64 = 1;

/// How long a client waits before trying a busy pipe again.
pub const PIPE_BUSY_RETRY_MS: u64 = 100;

/// What an attempt to open the pipe as a client gave.
#[derive(Debug, Clone, Copy, PartialEq, Eq)]
pub enum PipeOpen {
    /// The pipe is open.
    Opened,
    /// All instances of the pipe are busy (`ERROR_PIPE_BUSY`).
    Busy,
    /// Any other error.
    Failed,
}

/// What a client does next.
#[derive(Debug, Clone, Copy, PartialEq, Eq)]
pub enum ConnectStep {
    /// Write the command.
    Connected,
    /// Wait this many milliseconds and try again.
    RetryAfterMs(u64),
    /// Give up and report the error.
    GiveUp,
}

/// The client's decision after one attempt to open the pipe: a busy pipe is
/// tried again after `PIPE_BUSY_RETRY_MS`, any other error ends the attempt.
pub fn connect_step(outcome: PipeOpen) -> (step: ConnectStep)
    ensures
        step == match outcome {
            PipeOpen::Opened => ConnectStep::Connected,
            PipeOpen::Busy => ConnectStep::RetryAfterMs(PIPE_BUSY_RETRY_MS),
            PipeOpen::Failed => ConnectStep::GiveUp,
        },
{
    match outcome {
        PipeOpen::Opened => ConnectStep::Connected,
        PipeOpen::Busy => ConnectStep::RetryAfterMs(PIPE_BUSY_RETRY_MS),
        PipeOpen::Failed => ConnectStep::GiveUp,
    }
}

/// Remembers whether the IPC server was started.
pub struct IpcServerStart {
    started: bool,
}

impl IpcServerStart {
    /// Whether a call of `start` already launched the server.
    pub closed spec fn is_started(&self) -> bool {
        self.started
    }

    /// A server that was never started.
    pub fn new() -> (s: Self)
        ensures
            !s.is_started(),
    {
        IpcServerStart { started: false }
    }
}

/// What one call of `start` gives from a state: whether it launches the
/// server, and whether the server counts as started afterwards.
pub open spec fn start_step(started: bool) -> (bool, bool) {
    (!started, true)
}

/// What each of `calls` successive calls of `start` gives, from a state.
pub open spec fn start_outcomes(started: bool, calls: nat) -> Seq<bool>
    decreases calls,
{
    if calls == 0 {
        Seq::empty()
    } else {
        seq![start_step(started).0] + start_outcomes(start_step(started).1, (calls - 1) as nat)
    }
}

/// Claims the right to launch the IPC server: `true` on the first call only,
/// after which the server counts as started.
pub fn start(state: &mut IpcServerStart) -> (launch: bool)
    ensures
        (launch, final(state).is_started()) == start_step(old(state).is_started()),
        launch == !old(state).is_started(),
        final(state).is_started(),
{
    if state.started {
        false
    } else {
        state.started = true;
        true
    }
}

/// However many times `start` is called on a fresh state, the server is
/// launched once, by the first call; once started, no call launches it.
pub proof fn lemma_start_launches_once(calls: nat)
    requires
        calls >= 1,
    ensures
        start_outcomes(false, calls)[0],
        forall|i: int| 1 <= i < calls ==> !#[trigger] start_outcomes(false, calls)[i],
        start_outcomes(false, calls).len() == calls,
{
    lemma_started_never_launches((calls - 1) as nat);
    assert forall|i: int| 1 <= i < calls implies !#[trigger] start_outcomes(false, calls)[i] by {
        assert(start_outcomes(false, calls)[i] == start_outcomes(true, (calls - 1) as nat)[i - 1]);
    }
}

/// Once the server is started, no call of `start` launches it.
pub proof fn lemma_started_never_launches(calls: nat)
    ensures
        start_outcomes(true, calls).len() == calls,
        forall|i: int| 0 <= i < calls ==> !#[trigger] start_outcomes(true, calls)[i],
    decreases calls,
{
    if calls > 0 {
        lemma_started_never_launches((calls - 1) as nat);
        assert forall|i: int| 0 <= i < calls implies !#[trigger] start_outcomes(true, calls)[i] by {
            if i > 0 {
                assert(start_outcomes(true, calls)[i] == start_outcomes(true, (calls - 1) as nat)[i - 1]);
            }
        }
    }
}

} // verus!
