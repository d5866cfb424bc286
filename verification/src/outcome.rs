//! Terminal classifications of one tunnel session.

use vstd::prelude::*;

verus! {

/// Why an authentication attempt was abandoned.
#[derive(Clone, Copy, Debug, PartialEq, Eq, Structural)]
pub enum AuthFailureReason {
    /// A password prompt appeared but no credential is configured.
    NoCredential,
    /// The remote side rejected the credential (permission denied).
    WrongCredential,
    /// A key passphrase prompt appeared but no credential is configured.
    PassphraseRequiredNoCredential,
    /// A password prompt appeared while key authentication is configured.
    WrongAuthMethodForPrompt,
}

/// Which network-level failure text was seen in the child's output.
#[derive(Clone, Copy, Debug, PartialEq, Eq, Structural)]
pub enum NetworkFailureReason {
    /// The connection was refused.
    Refused,
    /// The connection attempt timed out.
    TimedOut,
}

/// Why an established tunnel stopped being usable.
#[derive(Clone, Copy, Debug, PartialEq, Eq, Structural)]
pub enum DisconnectReason {
    /// The child's output stream reached end-of-stream.
    EndOfStream,
    /// Reading the child's output failed.
    TransportError,
}

/// The sole value one full session hands back to the reconnect loop.
#[derive(Clone, Copy, Debug, PartialEq, Eq, Structural)]
pub enum SessionOutcome {
    /// The silence window elapsed with the child alive: the tunnel is up.
    Established,
    /// The child process could not be spawned at all.
    SpawnFailed,
    /// Login failed for the given reason; no tunnel was established.
    AuthFailure(AuthFailureReason),
    /// The connection could not be made at the network level.
    NetworkFailure(NetworkFailureReason),
    /// The child exited during the silence window before login finished.
    ProcessDied,
    /// A previously established tunnel went away.
    Disconnected(DisconnectReason),
    /// Reading from or writing to the pseudo-terminal failed during login.
    IoError,
    /// The user asked the whole process to stop.
    Cancelled,
}

} // verus!
