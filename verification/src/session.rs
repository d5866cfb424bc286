//! One session's phase state and the monitoring supervisor.
//!
//! A session is in exactly one of two phases. While *authenticating*, every
//! wait on the child's output is bounded by the short silence window. Once
//! the tunnel is *monitoring*, the wait is unbounded: the supervisor does
//! no pattern matching and cannot time out; it returns only when the
//! output stream ends or fails, and either way the tunnel is gone. A
//! session never returns from monitoring to authenticating.

use vstd::prelude::*;
use crate::config::SshConfig;
use crate::login::{spec_auth_action, auth_action, AuthAction, InteractionEvent};
use crate::outcome::{DisconnectReason, SessionOutcome};

verus! {

/// Seconds of silence the authenticating phase tolerates before treating
/// the quiet as evidence that negotiation is over.
pub const SILENCE_WINDOW_SECS: u64 = 5;

/// The two phases a session passes through, in this order.
#[derive(Clone, Copy, Debug, PartialEq, Eq, Structural)]
pub enum TunnelPhase {
    /// Watching prompts and errors, under the silence window.
    Authenticating,
    /// The tunnel is up; only liveness of the stream is watched.
    Monitoring,
}

/// How long the next wait on the child's output may block: bounded by the
/// silence window while authenticating, unbounded while monitoring.
pub fn wait_bound_secs(phase: &TunnelPhase) -> (r: Option<u64>)
    ensures
        phase is Authenticating ==> r == Some(SILENCE_WINDOW_SECS),
        phase is Monitoring ==> r is None,
{
    match phase {
        TunnelPhase::Authenticating => Some(SILENCE_WINDOW_SECS),
        TunnelPhase::Monitoring => None,
    }
}

/// What the unbounded wait of the monitoring phase can observe. There is
/// no silence variant: with no bound on the wait, a timeout cannot occur.
#[derive(Clone, Copy, Debug, PartialEq, Eq, Structural)]
pub enum MonitorEvent {
    /// The child's output stream reached end-of-stream.
    EndOfStream,
    /// Reading the child's output failed.
    ReadFailed,
}

/// The supervisor's classification of a monitoring observation.
pub open spec fn spec_monitor_outcome(ev: MonitorEvent) -> SessionOutcome {
    match ev {
        MonitorEvent::EndOfStream => SessionOutcome::Disconnected(DisconnectReason::EndOfStream),
        MonitorEvent::ReadFailed => SessionOutcome::Disconnected(DisconnectReason::TransportError),
    }
}

/// Classifies what ended the monitoring phase; every observation means the
/// tunnel is no longer usable.
pub fn monitor_outcome(ev: &MonitorEvent) -> (r: SessionOutcome)
    ensures
        r == spec_monitor_outcome(*ev),
        r is Disconnected,
{
    match ev {
        MonitorEvent::EndOfStream => SessionOutcome::Disconnected(DisconnectReason::EndOfStream),
        MonitorEvent::ReadFailed => SessionOutcome::Disconnected(DisconnectReason::TransportError),
    }
}

/// Law: once established, the supervisor never times out — its wait is
/// unbounded, and whatever it observes is a disconnection, never a
/// timeout-shaped outcome.
pub proof fn lemma_monitoring_never_times_out(ev: MonitorEvent)
    ensures
        spec_monitor_outcome(ev) is Disconnected,
        !(spec_monitor_outcome(ev) is Established),
        !(spec_monitor_outcome(ev) is ProcessDied),
{
}

/// The live state of one session: which phase it is in.
///
/// The phase can only move forward: [`TunnelSession::on_auth_event`] is the
/// sole transition out of `Authenticating`, it moves to `Monitoring`
/// exactly when the tunnel is established, and no method leads back.
pub struct TunnelSession {
    /// The phase the session is currently in.
    pub phase: TunnelPhase,
}

impl TunnelSession {
    /// A fresh session, about to authenticate.
    pub fn begin() -> (r: TunnelSession)
        ensures
            r.phase is Authenticating,
    {
        TunnelSession { phase: TunnelPhase::Authenticating }
    }

    /// Feeds one authenticating-phase event to the machine and takes the
    /// phase transition its action implies.
    pub fn on_auth_event(&mut self, cfg: &SshConfig, ev: &InteractionEvent) -> (r: AuthAction)
        requires
            old(self).phase is Authenticating,
        ensures
            r == spec_auth_action(*cfg, *ev),
            r is Establish <==> final(self).phase is Monitoring,
            !(r is Establish) ==> final(self).phase is Authenticating,
    {
        let action = auth_action(cfg, ev);
        match action {
            AuthAction::Establish => {
                self.phase = TunnelPhase::Monitoring;
            },
            _ => {},
        }
        action
    }

    /// Feeds the observation that ended the monitoring wait. The session
    /// stays in the monitoring phase: it never authenticates again.
    pub fn on_monitor_event(&mut self, ev: &MonitorEvent) -> (r: SessionOutcome)
        requires
            old(self).phase is Monitoring,
        ensures
            final(self).phase is Monitoring,
            r == spec_monitor_outcome(*ev),
            r is Disconnected,
    {
        monitor_outcome(ev)
    }
}

} // verus!
