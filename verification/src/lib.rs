//! Automated login and supervision for an SSH-backed SOCKS5 tunnel.
//!
//! The crate holds the decision logic of the tunnel keeper: classifying the
//! child process's terminal output into discrete events, driving the login
//! state machine that answers prompts, supervising the established tunnel,
//! and deciding how the reconnect loop reacts to each session outcome.
//! The surrounding process (spawning the child on a pseudo-terminal,
//! reading its output, sleeping, logging) lives outside this crate and
//! feeds plain values in.

pub mod cmdline;
pub mod config;
pub mod expiry;
pub mod keys;
pub mod login;
pub mod outcome;
pub mod reconnect;
pub mod scan;
pub mod session;
