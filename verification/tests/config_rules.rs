use pax::cmdline::{build_ssh_args, u16_to_dec};
use pax::config::{
    apply_key_override, create_from_args, default_auth_type, default_port, key_config_error,
    AppArgs, AuthType, ConfigError, SshConfig,
};

fn base_args() -> AppArgs {
    AppArgs {
        api: "https://example.com/api/auth.json".to_string(),
        timeout: 10,
        host: None,
        user: None,
        ssh_port: "22".to_string(),
        password: None,
        private_key: None,
        local_port: 1080,
    }
}

#[test]
fn defaults_match_the_wire_defaults() {
    assert_eq!(default_port(), "22");
    assert_eq!(default_auth_type(), AuthType::Password);
}

#[test]
fn cli_mode_requires_a_host() {
    let args = base_args();
    assert!(matches!(
        create_from_args(&args),
        Err(ConfigError::HostMissing)
    ));
}

#[test]
fn cli_config_takes_the_given_values_and_defaults_the_user() {
    let mut args = base_args();
    args.host = Some("example.net".to_string());
    args.ssh_port = "2222".to_string();
    args.password = Some("secret".to_string());
    let cfg = create_from_args(&args).unwrap();
    assert_eq!(cfg.host, "example.net");
    assert_eq!(cfg.user, "root");
    assert_eq!(cfg.port, "2222");
    assert_eq!(cfg.auth_type, AuthType::Password);
    assert_eq!(cfg.password.as_deref(), Some("secret"));
    assert_eq!(cfg.private_key, None);
    assert_eq!(cfg.region.as_deref(), Some("Local"));
    assert_eq!(cfg.ref_info.as_deref(), Some("CLI Args"));
    assert_eq!(cfg.exp_at, None);
}

#[test]
fn a_given_key_selects_key_authentication() {
    let mut args = base_args();
    args.host = Some("example.net".to_string());
    args.user = Some("admin".to_string());
    args.private_key = Some("~/.ssh/id_rsa".to_string());
    let cfg = create_from_args(&args).unwrap();
    assert_eq!(cfg.user, "admin");
    assert_eq!(cfg.auth_type, AuthType::Key);
    assert_eq!(cfg.private_key.as_deref(), Some("~/.ssh/id_rsa"));
}

fn fetched_config() -> SshConfig {
    SshConfig {
        user: "node".to_string(),
        host: "node.example.net".to_string(),
        port: "22".to_string(),
        auth_type: AuthType::Password,
        region: Some("eu".to_string()),
        ref_info: None,
        password: Some("pw".to_string()),
        private_key: None,
        exp_at: None,
    }
}

#[test]
fn local_key_overrides_a_fetched_config() {
    let mut cfg = fetched_config();
    apply_key_override(&mut cfg, false, &Some("/keys/id".to_string()));
    assert_eq!(cfg.auth_type, AuthType::Key);
    assert_eq!(cfg.private_key.as_deref(), Some("/keys/id"));
    // Everything else is untouched.
    assert_eq!(cfg.user, "node");
    assert_eq!(cfg.password.as_deref(), Some("pw"));
}

#[test]
fn no_override_in_cli_mode_or_without_a_key() {
    let mut cfg = fetched_config();
    apply_key_override(&mut cfg, true, &Some("/keys/id".to_string()));
    assert_eq!(cfg.auth_type, AuthType::Password);
    assert_eq!(cfg.private_key, None);
    apply_key_override(&mut cfg, false, &None);
    assert_eq!(cfg.auth_type, AuthType::Password);
    assert_eq!(cfg.private_key, None);
}

#[test]
fn key_auth_without_key_material_is_refused() {
    let mut cfg = fetched_config();
    cfg.auth_type = AuthType::Key;
    assert_eq!(key_config_error(&cfg), Some(ConfigError::KeyMissing));
    cfg.private_key = Some("/keys/id".to_string());
    assert_eq!(key_config_error(&cfg), None);
    assert_eq!(key_config_error(&fetched_config()), None);
}

#[test]
fn ports_format_as_decimal() {
    assert_eq!(u16_to_dec(0), "0");
    assert_eq!(u16_to_dec(7), "7");
    assert_eq!(u16_to_dec(1080), "1080");
    assert_eq!(u16_to_dec(65535), "65535");
}

#[test]
fn the_argument_list_for_password_auth() {
    let cfg = fetched_config();
    let args = build_ssh_args(1080, &cfg);
    let expected: Vec<String> = [
        "-D", "1080", "-N", "-C", "-v", "-o", "StrictHostKeyChecking=no", "-o",
        "UserKnownHostsFile=/dev/null", "-o", "ServerAliveInterval=15", "-o",
        "ConnectTimeout=10", "-p", "22", "node@node.example.net",
    ]
    .iter()
    .map(|s| s.to_string())
    .collect();
    assert_eq!(args, expected);
}

#[test]
fn the_argument_list_for_key_auth_names_the_key_file() {
    let mut cfg = fetched_config();
    cfg.auth_type = AuthType::Key;
    cfg.private_key = Some("/keys/id".to_string());
    cfg.port = "2200".to_string();
    let args = build_ssh_args(9999, &cfg);
    let expected: Vec<String> = [
        "-D", "9999", "-N", "-C", "-v", "-o", "StrictHostKeyChecking=no", "-o",
        "UserKnownHostsFile=/dev/null", "-o", "ServerAliveInterval=15", "-o",
        "ConnectTimeout=10", "-i", "/keys/id", "-p", "2200", "node@node.example.net",
    ]
    .iter()
    .map(|s| s.to_string())
    .collect();
    assert_eq!(args, expected);
}

#[test]
fn key_auth_without_a_path_omits_the_key_argument() {
    let mut cfg = fetched_config();
    cfg.auth_type = AuthType::Key;
    let args = build_ssh_args(1080, &cfg);
    assert!(!args.iter().any(|a| a == "-i"));
}
