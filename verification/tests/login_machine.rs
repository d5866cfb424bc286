use pax::config::{AuthType, SshConfig};
use pax::login::{auth_action, classify_output, run_auth_script, AuthAction, InteractionEvent};
use pax::outcome::{
    AuthFailureReason, DisconnectReason, NetworkFailureReason, SessionOutcome,
};
use pax::reconnect::{next_directive, LoopDirective, RETRY_DELAY_SECS};
use pax::session::{
    monitor_outcome, wait_bound_secs, MonitorEvent, TunnelPhase, TunnelSession,
    SILENCE_WINDOW_SECS,
};

fn password_config(password: Option<&str>) -> SshConfig {
    SshConfig {
        user: "root".to_string(),
        host: "example.net".to_string(),
        port: "22".to_string(),
        auth_type: AuthType::Password,
        region: None,
        ref_info: None,
        password: password.map(|p| p.to_string()),
        private_key: None,
        exp_at: None,
    }
}

fn key_config() -> SshConfig {
    SshConfig {
        auth_type: AuthType::Key,
        private_key: Some("/tmp/key".to_string()),
        ..password_config(None)
    }
}

#[test]
fn password_prompt_with_credential_sends_then_silence_establishes() {
    let cfg = password_config(Some("secret"));
    assert_eq!(
        classify_output("login attempt\r\nroot@example.net's password:"),
        Some(InteractionEvent::PasswordPrompt)
    );
    assert_eq!(
        auth_action(&cfg, &InteractionEvent::PasswordPrompt),
        AuthAction::SendCredential
    );
    let events = vec![
        InteractionEvent::PasswordPrompt,
        InteractionEvent::Silence { process_alive: true },
    ];
    let (outcome, sends) = run_auth_script(&cfg, &events);
    assert_eq!(outcome, Some(SessionOutcome::Established));
    assert_eq!(sends, 1);
}

#[test]
fn reappearing_prompt_is_answered_again() {
    let cfg = password_config(Some("secret"));
    let events = vec![
        InteractionEvent::PasswordPrompt,
        InteractionEvent::PasswordPrompt,
        InteractionEvent::Silence { process_alive: true },
    ];
    let (outcome, sends) = run_auth_script(&cfg, &events);
    assert_eq!(outcome, Some(SessionOutcome::Established));
    assert_eq!(sends, 2);
}

#[test]
fn password_prompt_under_key_auth_fails_without_send() {
    let cfg = key_config();
    assert_eq!(
        auth_action(&cfg, &InteractionEvent::PasswordPrompt),
        AuthAction::Conclude(SessionOutcome::AuthFailure(
            AuthFailureReason::WrongAuthMethodForPrompt
        ))
    );
    let events = vec![InteractionEvent::PasswordPrompt];
    let (outcome, sends) = run_auth_script(&cfg, &events);
    assert_eq!(
        outcome,
        Some(SessionOutcome::AuthFailure(
            AuthFailureReason::WrongAuthMethodForPrompt
        ))
    );
    assert_eq!(sends, 0);
}

#[test]
fn password_prompt_without_credential_fails() {
    let cfg = password_config(None);
    let events = vec![InteractionEvent::PasswordPrompt];
    let (outcome, sends) = run_auth_script(&cfg, &events);
    assert_eq!(
        outcome,
        Some(SessionOutcome::AuthFailure(AuthFailureReason::NoCredential))
    );
    assert_eq!(sends, 0);
}

#[test]
fn passphrase_prompt_uses_credential_or_fails() {
    let with = password_config(Some("phrase"));
    assert_eq!(
        auth_action(&with, &InteractionEvent::PassphrasePrompt),
        AuthAction::SendCredential
    );
    // The passphrase answer does not depend on the configured method.
    let mut keyed = key_config();
    keyed.password = Some("phrase".to_string());
    assert_eq!(
        auth_action(&keyed, &InteractionEvent::PassphrasePrompt),
        AuthAction::SendCredential
    );
    let without = key_config();
    assert_eq!(
        auth_action(&without, &InteractionEvent::PassphrasePrompt),
        AuthAction::Conclude(SessionOutcome::AuthFailure(
            AuthFailureReason::PassphraseRequiredNoCredential
        ))
    );
}

#[test]
fn connection_refused_text_fails_network() {
    let cfg = password_config(Some("secret"));
    assert_eq!(
        classify_output("ssh: connect to host example.net port 22: Connection refused"),
        Some(InteractionEvent::ConnectionRefused)
    );
    let events = vec![InteractionEvent::ConnectionRefused];
    let (outcome, _) = run_auth_script(&cfg, &events);
    assert_eq!(
        outcome,
        Some(SessionOutcome::NetworkFailure(NetworkFailureReason::Refused))
    );
}

#[test]
fn timed_out_text_fails_network() {
    assert_eq!(
        classify_output("connect to host example.net port 22: Connection timed out"),
        Some(InteractionEvent::TimedOutNetwork)
    );
    let cfg = password_config(Some("secret"));
    let events = vec![InteractionEvent::TimedOutNetwork];
    let (outcome, _) = run_auth_script(&cfg, &events);
    assert_eq!(
        outcome,
        Some(SessionOutcome::NetworkFailure(NetworkFailureReason::TimedOut))
    );
}

#[test]
fn denied_text_fails_auth() {
    assert_eq!(
        classify_output("root@example.net: Permission denied (publickey,password)."),
        Some(InteractionEvent::PermissionDenied)
    );
    let cfg = password_config(Some("secret"));
    let events = vec![InteractionEvent::PermissionDenied];
    let (outcome, _) = run_auth_script(&cfg, &events);
    assert_eq!(
        outcome,
        Some(SessionOutcome::AuthFailure(AuthFailureReason::WrongCredential))
    );
}

#[test]
fn silence_over_dead_process_means_process_died() {
    let cfg = password_config(Some("secret"));
    let events = vec![InteractionEvent::Silence { process_alive: false }];
    let (outcome, sends) = run_auth_script(&cfg, &events);
    assert_eq!(outcome, Some(SessionOutcome::ProcessDied));
    assert_eq!(sends, 0);
}

#[test]
fn eof_and_io_error_while_authenticating_are_fatal() {
    let cfg = password_config(Some("secret"));
    let (o1, _) = run_auth_script(&cfg, &vec![InteractionEvent::Eof]);
    assert_eq!(o1, Some(SessionOutcome::IoError));
    let (o2, _) = run_auth_script(&cfg, &vec![InteractionEvent::IoError]);
    assert_eq!(o2, Some(SessionOutcome::IoError));
}

#[test]
fn exhausted_events_leave_the_phase_open() {
    let cfg = password_config(Some("secret"));
    let (outcome, sends) = run_auth_script(&cfg, &vec![]);
    assert_eq!(outcome, None);
    assert_eq!(sends, 0);
}

#[test]
fn session_phases_move_forward_only() {
    let cfg = password_config(Some("secret"));
    let mut session = TunnelSession::begin();
    assert_eq!(session.phase, TunnelPhase::Authenticating);
    assert_eq!(wait_bound_secs(&session.phase), Some(SILENCE_WINDOW_SECS));
    let action = session.on_auth_event(&cfg, &InteractionEvent::PasswordPrompt);
    assert_eq!(action, AuthAction::SendCredential);
    assert_eq!(session.phase, TunnelPhase::Authenticating);
    let action = session.on_auth_event(
        &cfg,
        &InteractionEvent::Silence { process_alive: true },
    );
    assert_eq!(action, AuthAction::Establish);
    assert_eq!(session.phase, TunnelPhase::Monitoring);
    assert_eq!(wait_bound_secs(&session.phase), None);
    let outcome = session.on_monitor_event(&MonitorEvent::EndOfStream);
    assert_eq!(
        outcome,
        SessionOutcome::Disconnected(DisconnectReason::EndOfStream)
    );
    assert_eq!(session.phase, TunnelPhase::Monitoring);
}

#[test]
fn monitor_read_failure_is_a_disconnect() {
    assert_eq!(
        monitor_outcome(&MonitorEvent::ReadFailed),
        SessionOutcome::Disconnected(DisconnectReason::TransportError)
    );
}

#[test]
fn disconnect_after_established_leads_to_one_delay_and_retry() {
    let outcome = monitor_outcome(&MonitorEvent::EndOfStream);
    assert_eq!(
        next_directive(&outcome),
        LoopDirective::DelayThenRetry { delay_secs: RETRY_DELAY_SECS }
    );
    assert_eq!(RETRY_DELAY_SECS, 5);
}

#[test]
fn cancellation_exits_without_delay() {
    assert_eq!(
        next_directive(&SessionOutcome::Cancelled),
        LoopDirective::ExitProcess
    );
}

#[test]
fn every_noncancellation_outcome_retries_uniformly() {
    let outcomes = vec![
        SessionOutcome::Established,
        SessionOutcome::SpawnFailed,
        SessionOutcome::AuthFailure(AuthFailureReason::NoCredential),
        SessionOutcome::AuthFailure(AuthFailureReason::WrongCredential),
        SessionOutcome::NetworkFailure(NetworkFailureReason::Refused),
        SessionOutcome::NetworkFailure(NetworkFailureReason::TimedOut),
        SessionOutcome::ProcessDied,
        SessionOutcome::Disconnected(DisconnectReason::EndOfStream),
        SessionOutcome::Disconnected(DisconnectReason::TransportError),
        SessionOutcome::IoError,
    ];
    for o in outcomes {
        assert_eq!(
            next_directive(&o),
            LoopDirective::DelayThenRetry { delay_secs: 5 }
        );
    }
}

#[test]
fn no_output_and_no_match_classifies_nothing() {
    assert_eq!(classify_output(""), None);
    assert_eq!(classify_output("debug1: reading configuration"), None);
}
