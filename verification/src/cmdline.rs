//! The argument list handed to the login client.
//!
//! One session spawns the client with a fixed shape of command line:
//! dynamic local port forwarding for the SOCKS5 proxy, no remote command,
//! compression, verbose output (the state machine watches the text), host
//! key checking and persistence disabled — a deliberate trust trade-off
//! for unattended reconnects — a keepalive probe interval, a connection
//! timeout, the key file only under key authentication, and finally the
//! remote port and `user@host`.

use vstd::prelude::*;
use vstd::string::StringExecFns;
use crate::config::SshConfig;

verus! {

/// The decimal digit character for `d`.
pub open spec fn digit_char(d: nat) -> char {
    if d == 0 {
        '0'
    } else if d == 1 {
        '1'
    } else if d == 2 {
        '2'
    } else if d == 3 {
        '3'
    } else if d == 4 {
        '4'
    } else if d == 5 {
        '5'
    } else if d == 6 {
        '6'
    } else if d == 7 {
        '7'
    } else if d == 8 {
        '8'
    } else {
        '9'
    }
}

/// The decimal text of `n`, most significant digit first, no leading zero.
pub open spec fn spec_dec(n: nat) -> Seq<char>
    decreases n,
{
    if n < 10 {
        seq![digit_char(n)]
    } else {
        spec_dec(n / 10).push(digit_char(n % 10))
    }
}

/// The one-character text of a single decimal digit.
fn digit_str(d: u16) -> (r: &'static str)
    requires
        d < 10,
    ensures
        r@ == seq![digit_char(d as nat)],
{
    proof {
        reveal_strlit("0");
        reveal_strlit("1");
        reveal_strlit("2");
        reveal_strlit("3");
        reveal_strlit("4");
        reveal_strlit("5");
        reveal_strlit("6");
        reveal_strlit("7");
        reveal_strlit("8");
        reveal_strlit("9");
    }
    let r: &'static str = match d {
        0 => "0",
        1 => "1",
        2 => "2",
        3 => "3",
        4 => "4",
        5 => "5",
        6 => "6",
        7 => "7",
        8 => "8",
        _ => "9",
    };
    proof {
        assert(r@ =~= seq![digit_char(d as nat)]);
    }
    r
}

/// Formats a port number as decimal text.
pub fn u16_to_dec(n: u16) -> (r: String)
    ensures
        r@ == spec_dec(n as nat),
    decreases n,
{
    if n < 10 {
        String::from_str(digit_str(n))
    } else {
        proof {
            assert(n / 10 < n) by (nonlinear_arith)
                requires
                    n >= 10,
            ;
        }
        let mut s = u16_to_dec(n / 10);
        s.append(digit_str(n % 10));
        proof {
            assert(s@ =~= spec_dec(n as nat));
        }
        s
    }
}

/// The exact argument list, word for word, that a session's child process
/// is spawned with.
pub open spec fn spec_ssh_args(local_port: u16, cfg: SshConfig) -> Seq<Seq<char>> {
    let base = seq![
        "-D"@,
        spec_dec(local_port as nat),
        "-N"@,
        "-C"@,
        "-v"@,
        "-o"@,
        "StrictHostKeyChecking=no"@,
        "-o"@,
        "UserKnownHostsFile=/dev/null"@,
        "-o"@,
        "ServerAliveInterval=15"@,
        "-o"@,
        "ConnectTimeout=10"@,
    ];
    let keyed = if cfg.auth_type is Key && cfg.private_key is Some {
        base + seq!["-i"@, cfg.private_key->0@]
    } else {
        base
    };
    keyed + seq!["-p"@, cfg.port@, cfg.user@ + "@"@ + cfg.host@]
}

/// Builds the argument list for the login client from one configuration.
pub fn build_ssh_args(local_port: u16, cfg: &SshConfig) -> (r: Vec<String>)
    ensures
        r@.map_values(|s: String| s@) == spec_ssh_args(local_port, *cfg),
{
    let mut args: Vec<String> = Vec::new();
    args.push(String::from_str("-D"));
    args.push(u16_to_dec(local_port));
    args.push(String::from_str("-N"));
    args.push(String::from_str("-C"));
    args.push(String::from_str("-v"));
    args.push(String::from_str("-o"));
    args.push(String::from_str("StrictHostKeyChecking=no"));
    args.push(String::from_str("-o"));
    args.push(String::from_str("UserKnownHostsFile=/dev/null"));
    args.push(String::from_str("-o"));
    args.push(String::from_str("ServerAliveInterval=15"));
    args.push(String::from_str("-o"));
    args.push(String::from_str("ConnectTimeout=10"));
    match (&cfg.auth_type, &cfg.private_key) {
        (crate::config::AuthType::Key, Some(key_path)) => {
            args.push(String::from_str("-i"));
            args.push(key_path.clone());
        },
        _ => {},
    }
    args.push(String::from_str("-p"));
    args.push(cfg.port.clone());
    let mut user_at_host = cfg.user.clone();
    user_at_host.append("@");
    user_at_host.append(cfg.host.as_str());
    args.push(user_at_host);
    proof {
        assert(args@.map_values(|s: String| s@) =~~= spec_ssh_args(local_port, *cfg));
    }
    args
}

} // verus!
