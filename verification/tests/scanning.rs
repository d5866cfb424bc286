use pax::scan::{find_text, scan_output, PatternKind};

#[test]
fn finds_a_lone_password_prompt() {
    let m = scan_output("password:").unwrap();
    assert_eq!(m.kind, PatternKind::PasswordPrompt);
    assert_eq!(m.start, 0);
}

#[test]
fn reports_the_position_inside_surrounding_text() {
    let m = scan_output("xyz password: ").unwrap();
    assert_eq!(m.kind, PatternKind::PasswordPrompt);
    assert_eq!(m.start, 4);
}

#[test]
fn earliest_match_wins_over_a_later_one() {
    let m = scan_output("Connection timed out, then password:").unwrap();
    assert_eq!(m.kind, PatternKind::TimedOutNetwork);
    assert_eq!(m.start, 11);
}

#[test]
fn denied_is_found_inside_permission_denied() {
    let m = scan_output("Permission denied, please try again.").unwrap();
    assert_eq!(m.kind, PatternKind::PermissionDenied);
    assert_eq!(m.start, 11);
}

#[test]
fn passphrase_prompt_is_matched() {
    let m = scan_output("Enter passphrase for key '/root/.ssh/id_rsa':").unwrap();
    assert_eq!(m.kind, PatternKind::PassphrasePrompt);
    assert_eq!(m.start, 0);
}

#[test]
fn connection_refused_is_matched() {
    let m = scan_output("ssh: connect to host h port 22: Connection refused").unwrap();
    assert_eq!(m.kind, PatternKind::ConnectionRefused);
    assert_eq!(m.start, 32);
}

#[test]
fn unmatched_text_yields_nothing() {
    assert!(scan_output("").is_none());
    assert!(scan_output("debug1: Authenticating as root").is_none());
    // A prefix of a pattern alone is not a match.
    assert!(scan_output("password").is_none());
    assert!(scan_output("denie").is_none());
}

#[test]
fn non_ascii_text_around_a_pattern_is_handled() {
    let m = scan_output("héllo wörld password: \u{fffd}").unwrap();
    assert_eq!(m.kind, PatternKind::PasswordPrompt);
    // Positions count characters, not bytes.
    assert_eq!(m.start, 12);
}

#[test]
fn find_text_reports_the_first_occurrence() {
    assert_eq!(find_text("abcabc", "bc"), Some(1));
    assert_eq!(find_text("abc", "x"), None);
    assert_eq!(find_text("", "x"), None);
}

#[test]
fn find_text_with_an_empty_needle_matches_at_the_start() {
    assert_eq!(find_text("abc", ""), Some(0));
    assert_eq!(find_text("", ""), Some(0));
}
