//! The per-connection worker state machine.

use crate::text::same_text;
use vstd::prelude::*;

verus! {

/// Milliseconds between two ticks of a connection worker.
pub const WORKER_REFRESH_RATE: u64 = 500;

/// Milliseconds between two reconciliation ticks.
pub const SERVICE_SYNC_REFRESH_RATE: u64 = 1000;

/// Milliseconds that a reader sidecar waits for a notification before it
/// looks for inbound data.
pub const SIDECAR_WAIT: u64 = 400;

/// The notification that ends a reader sidecar.
pub const KILL: &'static str = "kill";

/// What a reader sidecar does after one bounded wait.
#[derive(Clone, Copy, Debug, PartialEq, Eq, Structural)]
pub enum SidecarAction {
    /// The kill notification came: end.
    Exit,
    /// The wait timed out, or something else came: look for inbound data.
    Read,
}

/// What a sidecar does on the outcome of its wait: `None` for a wait
/// that timed out, else the notification that came.
pub open spec fn sidecar_action_for(notification: Option<Seq<char>>) -> SidecarAction {
    if notification == Some("kill"@) {
        SidecarAction::Exit
    } else {
        SidecarAction::Read
    }
}

/// Decides what a reader sidecar does after one bounded wait.
pub fn sidecar_step(notification: Option<&str>) -> (action: SidecarAction)
    ensures
        action == sidecar_action_for(
            match notification {
                Some(text) => Some(text@),
                None => None,
            },
        ),
{
    match notification {
        Some(text) => if same_text(text, KILL) {
            SidecarAction::Exit
        } else {
            SidecarAction::Read
        },
        None => SidecarAction::Read,
    }
}

/// What a worker does on one poll tick.
#[derive(Clone, Copy, Debug, PartialEq, Eq, Structural)]
pub enum WorkerAction {
    /// Close the transport and report the disconnect.
    Disconnect,
    /// Attempt a transport connect.
    Connect,
    /// Send the pending outbound messages, oldest first.
    Drain,
    /// Nothing to do until the next tick.
    Wait,
}

/// The action that the status flags call for. A disconnect is carried out
/// only on a connection that is up or being set up: on one that is already
/// down the request changes nothing.
pub open spec fn action_for(connecting: bool, disconnecting: bool, connected: bool) -> WorkerAction {
    if disconnecting && (connected || connecting) {
        WorkerAction::Disconnect
    } else if connecting && !connected {
        WorkerAction::Connect
    } else if connected {
        WorkerAction::Drain
    } else {
        WorkerAction::Wait
    }
}

/// Picks the action for one tick from the three status flags.
pub fn decide(connecting: bool, disconnecting: bool, connected: bool) -> (action: WorkerAction)
    ensures
        action == action_for(connecting, disconnecting, connected),
{
    if disconnecting && (connected || connecting) {
        WorkerAction::Disconnect
    } else if connecting && !connected {
        WorkerAction::Connect
    } else if connected {
        WorkerAction::Drain
    } else {
        WorkerAction::Wait
    }
}

/// Idempotence: on a connection that is neither connected nor connecting,
/// a disconnect request calls for no action.
pub proof fn lemma_disconnect_when_down(disconnecting: bool)
    ensures
        action_for(false, disconnecting, false) == WorkerAction::Wait,
{
}

/// The status flags are settled: at most one of `connecting`,
/// `disconnecting` and `connected` is set, and `failed` is set only while
/// `connecting` and `connected` are clear.
pub open spec fn flags_settled(
    connecting: bool,
    disconnecting: bool,
    connected: bool,
    failed: bool,
) -> bool {
    &&& !(connecting && disconnecting)
    &&& !(connecting && connected)
    &&& !(disconnecting && connected)
    &&& failed ==> !connecting && !connected
}

} // verus!
