//! Resolved connection parameters and the rules that produce them.
//!
//! A session runs against one immutable [`SshConfig`]. The crate does not
//! fetch anything itself: the surrounding process obtains the raw values
//! (from command-line arguments or from a remote document) and the
//! functions here apply the resolution rules — defaults, the choice of
//! authentication method, and the local key override.

use vstd::prelude::*;
use vstd::string::StringExecFns;

verus! {

/// How the login client is expected to authenticate.
#[derive(Clone, Copy, Debug, PartialEq, Eq, Structural)]
pub enum AuthType {
    /// Answer a password prompt with the configured credential.
    Password,
    /// Present a private key file; the credential, if any, is its passphrase.
    Key,
}

/// The resolved parameters of one tunnel session.
#[derive(Clone, Debug)]
pub struct SshConfig {
    /// Remote login user.
    pub user: String,
    /// Remote host name or address.
    pub host: String,
    /// Remote port, as the text handed to the login client.
    pub port: String,
    /// The authentication method the session uses.
    pub auth_type: AuthType,
    /// Optional display metadata: where the node is.
    pub region: Option<String>,
    /// Optional display metadata: a reference note for the node.
    pub ref_info: Option<String>,
    /// The credential sent in answer to a prompt, if one is configured.
    pub password: Option<String>,
    /// Private key material or a path to it, when `auth_type` is `Key`.
    pub private_key: Option<String>,
    /// Optional expiry deadline of the account, as raw text.
    pub exp_at: Option<String>,
}

/// The raw command-line values the process was started with.
#[derive(Clone, Debug)]
pub struct AppArgs {
    /// Endpoint the configuration document is fetched from, absent `host`.
    pub api: String,
    /// Timeout in seconds for fetching that document.
    pub timeout: u64,
    /// Remote host; giving it selects direct command-line configuration.
    pub host: Option<String>,
    /// Remote user; defaults to `root` in command-line configuration.
    pub user: Option<String>,
    /// Remote port text; the command line defaults it to `22`.
    pub ssh_port: String,
    /// Password credential.
    pub password: Option<String>,
    /// Private key material or path; giving it selects key authentication.
    pub private_key: Option<String>,
    /// Local port the SOCKS5 proxy listens on.
    pub local_port: u16,
}

/// Why a configuration could not be resolved into a runnable session.
#[derive(Clone, Copy, Debug, PartialEq, Eq, Structural)]
pub enum ConfigError {
    /// Command-line configuration was selected but no host was given.
    HostMissing,
    /// Key authentication is configured but no key was provided.
    KeyMissing,
}

/// The port used when none is given.
pub fn default_port() -> (r: String)
    ensures
        r@ == "22"@,
{
    String::from_str("22")
}

/// The authentication method used when none is given.
pub fn default_auth_type() -> (r: AuthType)
    ensures
        r == AuthType::Password,
{
    AuthType::Password
}

/// An owned copy of an optional string, equal to what it copies.
fn clone_opt_string(o: &Option<String>) -> (r: Option<String>)
    ensures
        r == *o,
{
    match o {
        Some(s) => Some(s.clone()),
        None => None,
    }
}

/// Builds a session configuration from command-line values alone.
///
/// Succeeds exactly when a host is given. The user defaults to `root`,
/// the port is taken as given, and the authentication method is `Key`
/// exactly when a private key was provided.
pub fn create_from_args(args: &AppArgs) -> (r: Result<SshConfig, ConfigError>)
    ensures
        r is Ok <==> args.host is Some,
        r is Err ==> r->Err_0 == ConfigError::HostMissing,
        r matches Ok(cfg) ==> {
            &&& cfg.host == args.host->0
            &&& (args.user is Some ==> cfg.user == args.user->0)
            &&& (args.user is None ==> cfg.user@ == "root"@)
            &&& cfg.port == args.ssh_port
            &&& cfg.auth_type == (if args.private_key is Some {
                AuthType::Key
            } else {
                AuthType::Password
            })
            &&& cfg.password == args.password
            &&& cfg.private_key == args.private_key
            &&& cfg.region matches Some(re) && re@ == "Local"@
            &&& cfg.ref_info matches Some(ri) && ri@ == "CLI Args"@
            &&& cfg.exp_at is None
        },
{
    let host = match &args.host {
        Some(h) => h.clone(),
        None => {
            return Err(ConfigError::HostMissing);
        }
    };
    let user = match &args.user {
        Some(u) => u.clone(),
        None => String::from_str("root"),
    };
    let auth_type = if args.private_key.is_some() {
        AuthType::Key
    } else {
        AuthType::Password
    };
    Ok(SshConfig {
        user,
        host,
        port: args.ssh_port.clone(),
        auth_type,
        region: Some(String::from_str("Local")),
        ref_info: Some(String::from_str("CLI Args")),
        password: clone_opt_string(&args.password),
        private_key: clone_opt_string(&args.private_key),
        exp_at: None,
    })
}

/// Applies the local key override to a fetched configuration.
///
/// When the configuration did not come from the command line and a key was
/// given there anyway, the key wins: the method becomes `Key` and the key
/// replaces whatever the document held. Everything else is untouched, and
/// in command-line mode the configuration is returned unchanged.
pub fn apply_key_override(cfg: &mut SshConfig, cli_mode: bool, override_key: &Option<String>)
    ensures
        (!cli_mode && override_key is Some) ==> {
            &&& final(cfg).auth_type == AuthType::Key
            &&& final(cfg).private_key == *override_key
            &&& final(cfg).user == old(cfg).user
            &&& final(cfg).host == old(cfg).host
            &&& final(cfg).port == old(cfg).port
            &&& final(cfg).region == old(cfg).region
            &&& final(cfg).ref_info == old(cfg).ref_info
            &&& final(cfg).password == old(cfg).password
            &&& final(cfg).exp_at == old(cfg).exp_at
        },
        (cli_mode || override_key is None) ==> *final(cfg) == *old(cfg),
{
    if !cli_mode {
        match override_key {
            Some(k) => {
                cfg.auth_type = AuthType::Key;
                cfg.private_key = Some(k.clone());
            }
            None => {}
        }
    }
}

/// The check made before a session spawns: key authentication without any
/// key material is refused up front.
pub fn key_config_error(cfg: &SshConfig) -> (r: Option<ConfigError>)
    ensures
        r is Some <==> (cfg.auth_type is Key && cfg.private_key is None),
        r is Some ==> r->0 == ConfigError::KeyMissing,
{
    match cfg.auth_type {
        AuthType::Key => {
            if cfg.private_key.is_none() {
                Some(ConfigError::KeyMissing)
            } else {
                None
            }
        }
        AuthType::Password => None,
    }
}

} // verus!
