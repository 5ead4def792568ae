//! The decisions of a peer's worker: the steps of connecting, and what the
//! worker's loop does in each state of the connection. The worker itself
//! (timers, channels, calls to the peer) performs the actions and reports
//! what came of them.
use vstd::prelude::*;
use crate::types::remote::{RemoteConnectionError, RemoteState};

verus! {

/// Why the peer's certificate could not be had, as far as the state of the
/// peer depends on it.
#[derive(Clone, Copy, Debug, PartialEq, Eq, Structural)]
pub enum CertFailure {
    /// The box did not open with the group code.
    WrongGroupCode,
    /// The peer's registration service cannot be reached.
    Offline,
    /// Any other failure.
    Other,
}

/// What came of the last step of connecting.
#[derive(Clone, Copy, Debug, PartialEq, Eq, Structural)]
pub enum ConnectEvent {
    /// The attempt begins.
    Begin,
    CertificateReceived,
    CertificateFailed(CertFailure),
    ChannelBuilt,
    ChannelFailed,
    PingSucceeded,
    PingFailed,
    DuplexEstablished,
    DuplexFailed,
}

/// The work that comes next in an attempt to connect.
#[derive(Clone, Copy, Debug, PartialEq, Eq, Structural)]
pub enum ConnectTask {
    ReceiveCertificate,
    BuildChannel,
    Ping,
    WaitForDuplex,
    /// Connected: fetch the peer's machine info and picture, then stop.
    FetchDetails,
    /// The attempt failed and ends here.
    GiveUp,
}

/// What the worker does after an event of connecting: the state to give the
/// peer (if it changes), whether to drop the channel, and what comes next.
#[derive(Clone, Copy, Debug, PartialEq, Eq, Structural)]
pub struct ConnectAction {
    pub set_state: Option<RemoteState>,
    pub clear_channel: bool,
    pub next: ConnectTask,
}

/// The state a peer is left in when its certificate could not be had: a
/// group code mismatch when the box did not open, disconnected when the
/// registration service is offline, and otherwise an error for want of a
/// certificate.
pub open spec fn state_after_cert_failure(f: CertFailure) -> RemoteState {
    match f {
        CertFailure::WrongGroupCode => RemoteState::Error(RemoteConnectionError::GroupCodeMismatch),
        CertFailure::Offline => RemoteState::Disconnected,
        CertFailure::Other => RemoteState::Error(RemoteConnectionError::NoCertificate),
    }
}

/// The action that follows each event of connecting.
pub open spec fn spec_connect_step(e: ConnectEvent) -> ConnectAction {
    match e {
        ConnectEvent::Begin => ConnectAction {
            set_state: Some(RemoteState::Connecting),
            clear_channel: false,
            next: ConnectTask::ReceiveCertificate,
        },
        ConnectEvent::CertificateReceived => ConnectAction {
            set_state: None,
            clear_channel: false,
            next: ConnectTask::BuildChannel,
        },
        ConnectEvent::CertificateFailed(f) => ConnectAction {
            set_state: Some(state_after_cert_failure(f)),
            clear_channel: false,
            next: ConnectTask::GiveUp,
        },
        ConnectEvent::ChannelBuilt => ConnectAction {
            set_state: None,
            clear_channel: false,
            next: ConnectTask::Ping,
        },
        ConnectEvent::ChannelFailed => ConnectAction {
            set_state: Some(RemoteState::Error(RemoteConnectionError::SslError)),
            clear_channel: false,
            next: ConnectTask::GiveUp,
        },
        ConnectEvent::PingSucceeded => ConnectAction {
            set_state: Some(RemoteState::AwaitingDuplex),
            clear_channel: false,
            next: ConnectTask::WaitForDuplex,
        },
        ConnectEvent::PingFailed => ConnectAction {
            set_state: Some(RemoteState::Error(RemoteConnectionError::SslError)),
            clear_channel: true,
            next: ConnectTask::GiveUp,
        },
        ConnectEvent::DuplexEstablished => ConnectAction {
            set_state: Some(RemoteState::Connected),
            clear_channel: false,
            next: ConnectTask::FetchDetails,
        },
        ConnectEvent::DuplexFailed => ConnectAction {
            set_state: Some(RemoteState::Error(RemoteConnectionError::DuplexError)),
            clear_channel: true,
            next: ConnectTask::GiveUp,
        },
    }
}

/// The state of a peer whose certificate could not be had.
pub fn state_after_cert_failure_of(f: CertFailure) -> (r: RemoteState)
    ensures
        r == state_after_cert_failure(f),
{
    match f {
        CertFailure::WrongGroupCode => RemoteState::Error(RemoteConnectionError::GroupCodeMismatch),
        CertFailure::Offline => RemoteState::Disconnected,
        CertFailure::Other => RemoteState::Error(RemoteConnectionError::NoCertificate),
    }
}

/// What the worker does after an event of connecting.
pub fn connect_step(e: ConnectEvent) -> (r: ConnectAction)
    ensures
        r == spec_connect_step(e),
{
    match e {
        ConnectEvent::Begin => ConnectAction {
            set_state: Some(RemoteState::Connecting),
            clear_channel: false,
            next: ConnectTask::ReceiveCertificate,
        },
        ConnectEvent::CertificateReceived => ConnectAction {
            set_state: None,
            clear_channel: false,
            next: ConnectTask::BuildChannel,
        },
        ConnectEvent::CertificateFailed(f) => ConnectAction {
            set_state: Some(state_after_cert_failure_of(f)),
            clear_channel: false,
            next: ConnectTask::GiveUp,
        },
        ConnectEvent::ChannelBuilt => ConnectAction {
            set_state: None,
            clear_channel: false,
            next: ConnectTask::Ping,
        },
        ConnectEvent::ChannelFailed => ConnectAction {
            set_state: Some(RemoteState::Error(RemoteConnectionError::SslError)),
            clear_channel: false,
            next: ConnectTask::GiveUp,
        },
        ConnectEvent::PingSucceeded => ConnectAction {
            set_state: Some(RemoteState::AwaitingDuplex),
            clear_channel: false,
            next: ConnectTask::WaitForDuplex,
        },
        ConnectEvent::PingFailed => ConnectAction {
            set_state: Some(RemoteState::Error(RemoteConnectionError::SslError)),
            clear_channel: true,
            next: ConnectTask::GiveUp,
        },
        ConnectEvent::DuplexEstablished => ConnectAction {
            set_state: Some(RemoteState::Connected),
            clear_channel: false,
            next: ConnectTask::FetchDetails,
        },
        ConnectEvent::DuplexFailed => ConnectAction {
            set_state: Some(RemoteState::Error(RemoteConnectionError::DuplexError)),
            clear_channel: true,
            next: ConnectTask::GiveUp,
        },
    }
}

/// The event that reports a task's success.
pub open spec fn success_of(t: ConnectTask) -> Option<ConnectEvent> {
    match t {
        ConnectTask::ReceiveCertificate => Some(ConnectEvent::CertificateReceived),
        ConnectTask::BuildChannel => Some(ConnectEvent::ChannelBuilt),
        ConnectTask::Ping => Some(ConnectEvent::PingSucceeded),
        ConnectTask::WaitForDuplex => Some(ConnectEvent::DuplexEstablished),
        _ => None,
    }
}

/// Whether `e` reports the failure of a step.
pub open spec fn is_failure(e: ConnectEvent) -> bool {
    match e {
        ConnectEvent::CertificateFailed(_) | ConnectEvent::ChannelFailed | ConnectEvent::PingFailed
        | ConnectEvent::DuplexFailed => true,
        _ => false,
    }
}

/// The task reached from `Begin` after `n` successes in a row.
pub open spec fn task_after_successes(n: nat) -> ConnectTask
    decreases n,
{
    if n == 0 {
        spec_connect_step(ConnectEvent::Begin).next
    } else {
        let prev = task_after_successes((n - 1) as nat);
        match success_of(prev) {
            Some(e) => spec_connect_step(e).next,
            None => prev,
        }
    }
}

/// When every step succeeds, an attempt to connect reaches the fetching of
/// the peer's details after the four steps, and the last state it gives the
/// peer is `Connected`.
pub proof fn law_connect_succeeds_when_every_step_does()
    ensures
        task_after_successes(4) == ConnectTask::FetchDetails,
        spec_connect_step(ConnectEvent::DuplexEstablished).set_state == Some(RemoteState::Connected),
        forall|n: nat| n >= 4 ==> #[trigger] task_after_successes(n) == ConnectTask::FetchDetails,
{
    reveal_with_fuel(task_after_successes, 5);
    assert forall|n: nat| n >= 4 implies #[trigger] task_after_successes(n) == ConnectTask::FetchDetails by {
        lemma_successes_stay_done(n);
    }
}

proof fn lemma_successes_stay_done(n: nat)
    requires
        n >= 4,
    ensures
        task_after_successes(n) == ConnectTask::FetchDetails,
    decreases n,
{
    reveal_with_fuel(task_after_successes, 5);
    if n > 4 {
        lemma_successes_stay_done((n - 1) as nat);
    }
}

/// A failed step ends the attempt and never leaves the peer connected; only
/// the establishment of the duplex makes it connected.
pub proof fn law_failure_ends_attempt(e: ConnectEvent)
    ensures
        is_failure(e) ==> spec_connect_step(e).next == ConnectTask::GiveUp,
        is_failure(e) ==> spec_connect_step(e).set_state is Some,
        spec_connect_step(e).set_state == Some(RemoteState::Connected) <==> e
            == ConnectEvent::DuplexEstablished,
        spec_connect_step(e).next == ConnectTask::GiveUp <==> is_failure(e),
{
}

// ---------------------------------------------------------------------------
// The worker's loop.

/// What the worker waits for in a state of the connection.
#[derive(Clone, Copy, Debug, PartialEq, Eq, Structural)]
pub enum LoopWait {
    /// Cancellation, the ping interval, or a change of state.
    PingTimer,
    /// Cancellation, the reconnect interval, or a change of state.
    ReconnectTimer,
    /// Cancellation or a change of state.
    StateChange,
    /// Nothing: the loop ends.
    Stop,
}

/// What ended a wait of the worker's loop.
#[derive(Clone, Copy, Debug, PartialEq, Eq, Structural)]
pub enum LoopEvent {
    Cancelled,
    TimerElapsed,
    StateChanged,
}

/// What the worker does when a wait ends.
#[derive(Clone, Copy, Debug, PartialEq, Eq, Structural)]
pub enum LoopReaction {
    /// Drop the channel, mark the peer disconnected, and end the loop.
    DisconnectAndStop,
    /// Ping the peer, then loop again.
    Ping,
    /// Try to connect, then loop again.
    Connect,
    /// Loop again.
    Continue,
}

/// What the loop waits for in state `s`: pings while connected, reconnects
/// while disconnected or in an error that can be retried, stops for good on
/// a group code mismatch (it needs the user), and otherwise (connecting,
/// awaiting the duplex) waits for the state to change.
pub open spec fn spec_loop_wait(s: RemoteState) -> LoopWait {
    match s {
        RemoteState::Connected => LoopWait::PingTimer,
        RemoteState::Disconnected => LoopWait::ReconnectTimer,
        RemoteState::Error(RemoteConnectionError::GroupCodeMismatch) => LoopWait::Stop,
        RemoteState::Error(_) => LoopWait::ReconnectTimer,
        _ => LoopWait::StateChange,
    }
}

pub fn loop_wait(s: RemoteState) -> (r: LoopWait)
    ensures
        r == spec_loop_wait(s),
{
    match s {
        RemoteState::Connected => LoopWait::PingTimer,
        RemoteState::Disconnected => LoopWait::ReconnectTimer,
        RemoteState::Error(RemoteConnectionError::GroupCodeMismatch) => LoopWait::Stop,
        RemoteState::Error(_) => LoopWait::ReconnectTimer,
        _ => LoopWait::StateChange,
    }
}

/// What the loop does when the wait `w` ends with `e`: a cancellation
/// disconnects and ends the loop; an elapsed ping timer pings, an elapsed
/// reconnect timer connects; a change of state loops again.
pub open spec fn spec_loop_react(w: LoopWait, e: LoopEvent) -> LoopReaction {
    match e {
        LoopEvent::Cancelled => LoopReaction::DisconnectAndStop,
        LoopEvent::TimerElapsed => match w {
            LoopWait::PingTimer => LoopReaction::Ping,
            LoopWait::ReconnectTimer => LoopReaction::Connect,
            _ => LoopReaction::Continue,
        },
        LoopEvent::StateChanged => LoopReaction::Continue,
    }
}

/// What the loop does when the wait `w` ends with `e`. A wait for nothing
/// (`Stop`) never ends with an event.
pub fn loop_react(w: LoopWait, e: LoopEvent) -> (r: LoopReaction)
    requires
        w != LoopWait::Stop,
        w == LoopWait::StateChange ==> e != LoopEvent::TimerElapsed,
    ensures
        r == spec_loop_react(w, e),
{
    match e {
        LoopEvent::Cancelled => LoopReaction::DisconnectAndStop,
        LoopEvent::TimerElapsed => match w {
            LoopWait::PingTimer => LoopReaction::Ping,
            LoopWait::ReconnectTimer => LoopReaction::Connect,
            _ => LoopReaction::Continue,
        },
        LoopEvent::StateChanged => LoopReaction::Continue,
    }
}

/// What the loop does when a ping of a connected peer fails.
#[derive(Clone, Copy, Debug, PartialEq, Eq, Structural)]
pub struct PingFailureAction {
    pub set_state: RemoteState,
    pub clear_channel: bool,
}

/// What a failed ping does to a connected peer: it becomes disconnected and
/// its channel is dropped; the loop goes on.
pub fn after_ping_failure() -> (r: PingFailureAction)
    ensures
        r.set_state == RemoteState::Disconnected,
        r.clear_channel,
{
    PingFailureAction { set_state: RemoteState::Disconnected, clear_channel: true }
}

/// A group code mismatch is never retried: in that state the loop stops at
/// once, whatever happens; every other state of error is retried when the
/// reconnect interval elapses.
pub proof fn law_group_code_mismatch_is_final(s: RemoteState)
    ensures
        s == RemoteState::Error(RemoteConnectionError::GroupCodeMismatch) ==> spec_loop_wait(s)
            == LoopWait::Stop,
        spec_loop_wait(s) == LoopWait::Stop ==> s == RemoteState::Error(
            RemoteConnectionError::GroupCodeMismatch,
        ),
        (s is Error && s != RemoteState::Error(RemoteConnectionError::GroupCodeMismatch))
            ==> spec_loop_react(spec_loop_wait(s), LoopEvent::TimerElapsed) == LoopReaction::Connect,
{
}

/// Whatever the state, a cancellation while the loop waits disconnects the
/// peer and ends the loop.
pub proof fn law_cancel_disconnects(w: LoopWait)
    ensures
        spec_loop_react(w, LoopEvent::Cancelled) == LoopReaction::DisconnectAndStop,
{
}

} // verus!
