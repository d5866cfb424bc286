//! The interactive login state machine.
//!
//! The child's output never announces success; it only produces prompts,
//! error texts, silence, or dies. The machine classifies each observation
//! into an [`InteractionEvent`] and answers with one [`AuthAction`]:
//! send the credential, declare the tunnel established, or conclude the
//! session with an outcome. Silence for the whole window with the child
//! still alive is the success heuristic; silence over a dead child means
//! the child died during negotiation.

use vstd::prelude::*;
use crate::config::{AuthType, SshConfig};
use crate::outcome::{AuthFailureReason, NetworkFailureReason, SessionOutcome};
use crate::scan::{any_pattern_at, scan_found, scan_output, PatternKind, ScanMatch};

verus! {

/// One observation taken from the child while authenticating.
#[derive(Clone, Copy, Debug, PartialEq, Eq, Structural)]
pub enum InteractionEvent {
    /// The output matched the password prompt text.
    PasswordPrompt,
    /// The output matched the key passphrase prompt text.
    PassphrasePrompt,
    /// The output matched the connection-refused text.
    ConnectionRefused,
    /// The output matched the timed-out text.
    TimedOutNetwork,
    /// The output matched the permission-denied text.
    PermissionDenied,
    /// The silence window elapsed with no pattern matched; the flag says
    /// whether the child process was still alive when it elapsed.
    Silence { process_alive: bool },
    /// The child's output stream ended while authenticating.
    Eof,
    /// Reading from the pseudo-terminal failed.
    IoError,
}

/// What the state machine does in response to one event.
#[derive(Clone, Copy, Debug, PartialEq, Eq, Structural)]
pub enum AuthAction {
    /// Write the configured credential and a line terminator to the child,
    /// then keep watching: the same prompt may legitimately reappear.
    SendCredential,
    /// Enter the monitoring phase; the session reports `Established`.
    Establish,
    /// The session is over with the given outcome.
    Conclude(SessionOutcome),
}

/// The event a scan match stands for.
pub open spec fn spec_event_of_match(k: PatternKind) -> InteractionEvent {
    match k {
        PatternKind::PasswordPrompt => InteractionEvent::PasswordPrompt,
        PatternKind::PassphrasePrompt => InteractionEvent::PassphrasePrompt,
        PatternKind::ConnectionRefused => InteractionEvent::ConnectionRefused,
        PatternKind::TimedOutNetwork => InteractionEvent::TimedOutNetwork,
        PatternKind::PermissionDenied => InteractionEvent::PermissionDenied,
    }
}

/// Maps a scan match to the event it stands for.
pub fn event_of_match(k: &PatternKind) -> (r: InteractionEvent)
    ensures
        r == spec_event_of_match(*k),
{
    match k {
        PatternKind::PasswordPrompt => InteractionEvent::PasswordPrompt,
        PatternKind::PassphrasePrompt => InteractionEvent::PassphrasePrompt,
        PatternKind::ConnectionRefused => InteractionEvent::ConnectionRefused,
        PatternKind::TimedOutNetwork => InteractionEvent::TimedOutNetwork,
        PatternKind::PermissionDenied => InteractionEvent::PermissionDenied,
    }
}

/// Scans accumulated output and names the event its match stands for:
/// the event of the earliest match, ties broken by pattern order; `None`
/// when nothing in the text matches any watched pattern.
pub fn classify_output(hay: &str) -> (r: Option<InteractionEvent>)
    ensures
        match r {
            Some(ev) => exists|m: ScanMatch|
                scan_found(hay@, m) && ev == spec_event_of_match(m.kind),
            None => forall|j: int| !any_pattern_at(hay@, j),
        },
{
    match scan_output(hay) {
        Some(m) => {
            let ev = event_of_match(&m.kind);
            proof {
                assert(scan_found(hay@, m) && ev == spec_event_of_match(m.kind));
            }
            Some(ev)
        },
        None => None,
    }
}

/// The whole decision rule of the authenticating phase.
///
/// A password prompt is answered only under password authentication with a
/// configured credential; under key authentication it is a wrong-method
/// failure, and without a credential it is a missing-credential failure.
/// A passphrase prompt is answered whenever a credential is configured.
/// The error texts conclude immediately. Silence concludes with
/// `Established` or `ProcessDied` depending on the child's liveness, and
/// a closed or failing pseudo-terminal is fatal for the session.
pub open spec fn spec_auth_action(cfg: SshConfig, ev: InteractionEvent) -> AuthAction {
    match ev {
        InteractionEvent::PasswordPrompt => {
            if cfg.auth_type is Password {
                if cfg.password is Some {
                    AuthAction::SendCredential
                } else {
                    AuthAction::Conclude(
                        SessionOutcome::AuthFailure(AuthFailureReason::NoCredential),
                    )
                }
            } else {
                AuthAction::Conclude(
                    SessionOutcome::AuthFailure(AuthFailureReason::WrongAuthMethodForPrompt),
                )
            }
        },
        InteractionEvent::PassphrasePrompt => {
            if cfg.password is Some {
                AuthAction::SendCredential
            } else {
                AuthAction::Conclude(
                    SessionOutcome::AuthFailure(AuthFailureReason::PassphraseRequiredNoCredential),
                )
            }
        },
        InteractionEvent::ConnectionRefused => AuthAction::Conclude(
            SessionOutcome::NetworkFailure(NetworkFailureReason::Refused),
        ),
        InteractionEvent::TimedOutNetwork => AuthAction::Conclude(
            SessionOutcome::NetworkFailure(NetworkFailureReason::TimedOut),
        ),
        InteractionEvent::PermissionDenied => AuthAction::Conclude(
            SessionOutcome::AuthFailure(AuthFailureReason::WrongCredential),
        ),
        InteractionEvent::Silence { process_alive } => {
            if process_alive {
                AuthAction::Establish
            } else {
                AuthAction::Conclude(SessionOutcome::ProcessDied)
            }
        },
        InteractionEvent::Eof => AuthAction::Conclude(SessionOutcome::IoError),
        InteractionEvent::IoError => AuthAction::Conclude(SessionOutcome::IoError),
    }
}

/// Decides the machine's response to one event; total over all events.
pub fn auth_action(cfg: &SshConfig, ev: &InteractionEvent) -> (r: AuthAction)
    ensures
        r == spec_auth_action(*cfg, *ev),
{
    match ev {
        InteractionEvent::PasswordPrompt => {
            match cfg.auth_type {
                AuthType::Password => {
                    if cfg.password.is_some() {
                        AuthAction::SendCredential
                    } else {
                        AuthAction::Conclude(
                            SessionOutcome::AuthFailure(AuthFailureReason::NoCredential),
                        )
                    }
                },
                AuthType::Key => AuthAction::Conclude(
                    SessionOutcome::AuthFailure(AuthFailureReason::WrongAuthMethodForPrompt),
                ),
            }
        },
        InteractionEvent::PassphrasePrompt => {
            if cfg.password.is_some() {
                AuthAction::SendCredential
            } else {
                AuthAction::Conclude(
                    SessionOutcome::AuthFailure(AuthFailureReason::PassphraseRequiredNoCredential),
                )
            }
        },
        InteractionEvent::ConnectionRefused => AuthAction::Conclude(
            SessionOutcome::NetworkFailure(NetworkFailureReason::Refused),
        ),
        InteractionEvent::TimedOutNetwork => AuthAction::Conclude(
            SessionOutcome::NetworkFailure(NetworkFailureReason::TimedOut),
        ),
        InteractionEvent::PermissionDenied => AuthAction::Conclude(
            SessionOutcome::AuthFailure(AuthFailureReason::WrongCredential),
        ),
        InteractionEvent::Silence { process_alive } => {
            if *process_alive {
                AuthAction::Establish
            } else {
                AuthAction::Conclude(SessionOutcome::ProcessDied)
            }
        },
        InteractionEvent::Eof => AuthAction::Conclude(SessionOutcome::IoError),
        InteractionEvent::IoError => AuthAction::Conclude(SessionOutcome::IoError),
    }
}

/// Folds the decision rule over a whole observed event sequence: the
/// outcome the authenticating phase reaches (`None` if the sequence ends
/// while the machine is still watching) and how many credential sends it
/// performed on the way.
pub open spec fn spec_auth_run(cfg: SshConfig, events: Seq<InteractionEvent>) -> (Option<
    SessionOutcome,
>, nat)
    decreases events.len(),
{
    if events.len() == 0 {
        (None, 0)
    } else {
        match spec_auth_action(cfg, events[0]) {
            AuthAction::SendCredential => {
                let rest = spec_auth_run(cfg, events.skip(1));
                (rest.0, (rest.1 + 1) as nat)
            },
            AuthAction::Establish => (Some(SessionOutcome::Established), 0),
            AuthAction::Conclude(o) => (Some(o), 0),
        }
    }
}

/// Drives the authenticating phase over a recorded event sequence, as the
/// live loop would: stops at the first event that ends the phase. Returns
/// the outcome reached, if any, and the number of credential sends.
pub fn run_auth_script(cfg: &SshConfig, events: &Vec<InteractionEvent>) -> (r: (
    Option<SessionOutcome>,
    usize,
))
    ensures
        r.0 == spec_auth_run(*cfg, events@).0,
        r.1 == spec_auth_run(*cfg, events@).1,
{
    let n = events.len();
    let mut sends: usize = 0;
    let mut i: usize = 0;
    proof {
        assert(events@.skip(0) =~= events@);
    }
    while i < n
        invariant
            n == events@.len(),
            i <= n,
            sends <= i,
            spec_auth_run(*cfg, events@).0 == spec_auth_run(*cfg, events@.skip(i as int)).0,
            spec_auth_run(*cfg, events@).1 == sends + spec_auth_run(
                *cfg,
                events@.skip(i as int),
            ).1,
        decreases n - i,
    {
        let ev = events[i];
        proof {
            assert(events@.skip(i as int)[0] == events@[i as int]);
            assert(events@.skip(i as int).skip(1) =~= events@.skip(i as int + 1));
        }
        match auth_action(cfg, &ev) {
            AuthAction::SendCredential => {
                sends = sends + 1;
            },
            AuthAction::Establish => {
                return (Some(SessionOutcome::Established), sends);
            },
            AuthAction::Conclude(o) => {
                return (Some(o), sends);
            },
        }
        i += 1;
    }
    (None, sends)
}

/// An event that makes the machine send the configured credential when one
/// is configured: either prompt text.
pub open spec fn is_prompt(ev: InteractionEvent) -> bool {
    ev is PasswordPrompt || ev is PassphrasePrompt
}

/// The number of leading events that are prompts: how many prompt
/// occurrences the machine processes before anything else happens.
pub open spec fn prompt_run_len(events: Seq<InteractionEvent>) -> nat
    decreases events.len(),
{
    if events.len() == 0 {
        0
    } else if is_prompt(events[0]) {
        (1 + prompt_run_len(events.skip(1))) as nat
    } else {
        0
    }
}

/// Law: under password authentication with a configured credential, the
/// machine sends the credential exactly once per prompt occurrence it
/// processes — a prompt that reappears is answered again, never suppressed.
pub proof fn lemma_one_send_per_prompt(cfg: SshConfig, events: Seq<InteractionEvent>)
    requires
        cfg.auth_type is Password,
        cfg.password is Some,
    ensures
        spec_auth_run(cfg, events).1 == prompt_run_len(events),
    decreases events.len(),
{
    if events.len() == 0 {
    } else if is_prompt(events[0]) {
        assert(spec_auth_action(cfg, events[0]) == AuthAction::SendCredential);
        lemma_one_send_per_prompt(cfg, events.skip(1));
    } else {
        assert(spec_auth_action(cfg, events[0]) != AuthAction::SendCredential);
    }
}

/// Law: under key authentication, a matched password prompt concludes the
/// session at once with a wrong-method authentication failure, and no
/// credential is ever sent for it.
pub proof fn lemma_key_mode_password_prompt(cfg: SshConfig, events: Seq<InteractionEvent>)
    requires
        cfg.auth_type is Key,
        events.len() > 0,
        events[0] is PasswordPrompt,
    ensures
        spec_auth_action(cfg, events[0]) == AuthAction::Conclude(
            SessionOutcome::AuthFailure(AuthFailureReason::WrongAuthMethodForPrompt),
        ),
        spec_auth_run(cfg, events).0 == Some(
            SessionOutcome::AuthFailure(AuthFailureReason::WrongAuthMethodForPrompt),
        ),
        spec_auth_run(cfg, events).1 == 0,
{
}

/// Law: when the silence window elapses with no pattern matched, the
/// machine declares the tunnel established exactly when the child is still
/// alive; over a dead child the session concludes `ProcessDied`. Either
/// way the silence ends the authenticating phase with no further send.
pub proof fn lemma_silence_resolution(
    cfg: SshConfig,
    events: Seq<InteractionEvent>,
    alive: bool,
)
    requires
        events.len() > 0,
        events[0] == (InteractionEvent::Silence { process_alive: alive }),
    ensures
        spec_auth_action(cfg, events[0]) == (if alive {
            AuthAction::Establish
        } else {
            AuthAction::Conclude(SessionOutcome::ProcessDied)
        }),
        spec_auth_run(cfg, events).0 == Some(
            if alive {
                SessionOutcome::Established
            } else {
                SessionOutcome::ProcessDied
            },
        ),
        spec_auth_run(cfg, events).1 == 0,
{
}

} // verus!
