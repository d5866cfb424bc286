//! Ordered pattern matching over the child's terminal output.
//!
//! The login state machine never parses the remote protocol; it watches the
//! raw text for a fixed, ordered set of prompt and error texts. One scan of
//! the accumulated output finds the match that starts earliest; when several
//! patterns start at the same position, the one listed first wins. The scan
//! is the single alternation the state machine evaluates per read.

use vstd::prelude::*;
use vstd::string::StrSliceExecFns;

verus! {

/// The texts watched for, in the order that breaks ties.
#[derive(Clone, Copy, Debug, PartialEq, Eq, Structural)]
pub enum PatternKind {
    /// `password:` — the remote side asks for a password.
    PasswordPrompt,
    /// `Enter passphrase` — the key is encrypted and needs its passphrase.
    PassphrasePrompt,
    /// `Connection refused` — the network connection was rejected.
    ConnectionRefused,
    /// `timed out` — the network connection attempt gave up.
    TimedOutNetwork,
    /// `denied` — the remote side rejected the credential.
    PermissionDenied,
}

/// The position of a pattern in the ordered alternation; lower wins a tie.
pub open spec fn pattern_rank(k: PatternKind) -> int {
    match k {
        PatternKind::PasswordPrompt => 0,
        PatternKind::PassphrasePrompt => 1,
        PatternKind::ConnectionRefused => 2,
        PatternKind::TimedOutNetwork => 3,
        PatternKind::PermissionDenied => 4,
    }
}

/// The text each pattern watches for.
pub open spec fn pattern_text(k: PatternKind) -> Seq<char> {
    match k {
        PatternKind::PasswordPrompt => "password:"@,
        PatternKind::PassphrasePrompt => "Enter passphrase"@,
        PatternKind::ConnectionRefused => "Connection refused"@,
        PatternKind::TimedOutNetwork => "timed out"@,
        PatternKind::PermissionDenied => "denied"@,
    }
}

/// `needle` occurs in `hay` starting exactly at position `i`.
pub open spec fn occurs_at(hay: Seq<char>, needle: Seq<char>, i: int) -> bool {
    &&& 0 <= i
    &&& i + needle.len() <= hay.len()
    &&& hay.subrange(i, i + needle.len() as int) == needle
}

/// Some watched pattern occurs in `hay` starting at position `i`.
pub open spec fn any_pattern_at(hay: Seq<char>, i: int) -> bool {
    exists|k: PatternKind| occurs_at(hay, pattern_text(k), i)
}

/// What one scan of the output found.
#[derive(Clone, Copy, Debug, PartialEq, Eq, Structural)]
pub struct ScanMatch {
    /// Which pattern matched.
    pub kind: PatternKind,
    /// Where in the scanned text the match starts.
    pub start: usize,
}

/// `m` is the match a correct scan of `hay` reports: its pattern occurs at
/// `m.start`, no pattern occurs anywhere earlier, and no pattern listed
/// before it also starts at `m.start`.
pub open spec fn scan_found(hay: Seq<char>, m: ScanMatch) -> bool {
    &&& occurs_at(hay, pattern_text(m.kind), m.start as int)
    &&& forall|j: int| 0 <= j < m.start ==> !any_pattern_at(hay, j)
    &&& forall|k: PatternKind| pattern_rank(k) < pattern_rank(m.kind)
        ==> !occurs_at(hay, pattern_text(k), m.start as int)
}

/// Law: a scan never reports a match that skips over other watched text.
/// In particular, a network-failure or permission-denied text standing
/// anywhere before a prompt is matched instead of being left unread in
/// the buffer: whatever occurs earliest is what the scan reports.
pub proof fn lemma_no_pattern_skipped(hay: Seq<char>, m: ScanMatch, k: PatternKind, i: int)
    requires
        scan_found(hay, m),
        occurs_at(hay, pattern_text(k), i),
    ensures
        m.start <= i,
{
    if i < m.start {
        assert(any_pattern_at(hay, i));
    }
}

/// Whether `needle` occurs in `hay` at position `i`.
fn matches_at(hay: &str, hay_len: usize, needle: &str, i: usize) -> (b: bool)
    requires
        hay_len == hay@.len(),
        i <= hay_len,
    ensures
        b == occurs_at(hay@, needle@, i as int),
{
    let needle_len = needle.unicode_len();
    if needle_len > hay_len - i {
        proof {
            assert(!occurs_at(hay@, needle@, i as int));
        }
        return false;
    }
    let mut j: usize = 0;
    while j < needle_len
        invariant
            hay_len == hay@.len(),
            needle_len == needle@.len(),
            i + needle_len <= hay_len,
            j <= needle_len,
            forall|l: int| 0 <= l < j ==> hay@[i + l] == needle@[l],
        decreases needle_len - j,
    {
        if hay.get_char(i + j) != needle.get_char(j) {
            proof {
                if occurs_at(hay@, needle@, i as int) {
                    assert(hay@.subrange(i as int, i + needle@.len() as int)[j as int]
                        == needle@[j as int]);
                }
            }
            return false;
        }
        j += 1;
    }
    proof {
        assert(hay@.subrange(i as int, i + needle@.len() as int) =~= needle@);
    }
    true
}

/// Checks the patterns in their fixed order at one position.
fn first_pattern_at(hay: &str, hay_len: usize, i: usize) -> (r: Option<PatternKind>)
    requires
        hay_len == hay@.len(),
        i <= hay_len,
    ensures
        match r {
            Some(k) => occurs_at(hay@, pattern_text(k), i as int)
                && (forall|k2: PatternKind| pattern_rank(k2) < pattern_rank(k)
                    ==> !occurs_at(hay@, pattern_text(k2), i as int)),
            None => !any_pattern_at(hay@, i as int),
        },
{
    if matches_at(hay, hay_len, "password:", i) {
        return Some(PatternKind::PasswordPrompt);
    }
    if matches_at(hay, hay_len, "Enter passphrase", i) {
        return Some(PatternKind::PassphrasePrompt);
    }
    if matches_at(hay, hay_len, "Connection refused", i) {
        return Some(PatternKind::ConnectionRefused);
    }
    if matches_at(hay, hay_len, "timed out", i) {
        return Some(PatternKind::TimedOutNetwork);
    }
    if matches_at(hay, hay_len, "denied", i) {
        return Some(PatternKind::PermissionDenied);
    }
    proof {
        assert forall|k: PatternKind| !occurs_at(hay@, pattern_text(k), i as int) by {
            match k {
                PatternKind::PasswordPrompt => {}
                PatternKind::PassphrasePrompt => {}
                PatternKind::ConnectionRefused => {}
                PatternKind::TimedOutNetwork => {}
                PatternKind::PermissionDenied => {}
            }
        }
    }
    None
}

/// One scan of the accumulated output: the earliest-starting occurrence of
/// any watched pattern, ties broken by the order the patterns are listed in;
/// `None` exactly when no watched pattern occurs anywhere in the text.
pub fn scan_output(hay: &str) -> (r: Option<ScanMatch>)
    ensures
        match r {
            Some(m) => scan_found(hay@, m),
            None => forall|j: int| !any_pattern_at(hay@, j),
        },
{
    proof {
        reveal_strlit("password:");
        reveal_strlit("Enter passphrase");
        reveal_strlit("Connection refused");
        reveal_strlit("timed out");
        reveal_strlit("denied");
    }
    let hay_len = hay.unicode_len();
    let mut i: usize = 0;
    while i < hay_len
        invariant
            hay_len == hay@.len(),
            i <= hay_len,
            forall|j: int| 0 <= j < i ==> !any_pattern_at(hay@, j),
        decreases hay_len - i,
    {
        match first_pattern_at(hay, hay_len, i) {
            Some(k) => {
                return Some(ScanMatch { kind: k, start: i });
            }
            None => {}
        }
        i += 1;
    }
    proof {
        assert forall|j: int| !any_pattern_at(hay@, j) by {
            if 0 <= j < hay_len {
                assert(!any_pattern_at(hay@, j));
            } else {
                assert forall|k: PatternKind| !occurs_at(hay@, pattern_text(k), j) by {
                    match k {
                        PatternKind::PasswordPrompt => {}
                        PatternKind::PassphrasePrompt => {}
                        PatternKind::ConnectionRefused => {}
                        PatternKind::TimedOutNetwork => {}
                        PatternKind::PermissionDenied => {}
                    }
                }
            }
        }
    }
    None
}

/// Whether `needle` occurs anywhere in `hay`; the found position is the
/// earliest occurrence.
pub fn find_text(hay: &str, needle: &str) -> (r: Option<usize>)
    ensures
        match r {
            Some(p) => occurs_at(hay@, needle@, p as int)
                && (forall|j: int| 0 <= j < p ==> !occurs_at(hay@, needle@, j)),
            None => forall|j: int| !occurs_at(hay@, needle@, j),
        },
{
    let hay_len = hay.unicode_len();
    let needle_len = needle.unicode_len();
    if needle_len == 0 {
        proof {
            assert(hay@.subrange(0, 0) =~= needle@);
        }
        return Some(0);
    }
    let mut i: usize = 0;
    while i < hay_len
        invariant
            hay_len == hay@.len(),
            needle_len == needle@.len(),
            i <= hay_len,
            forall|j: int| 0 <= j < i ==> !occurs_at(hay@, needle@, j),
        decreases hay_len - i,
    {
        if matches_at(hay, hay_len, needle, i) {
            return Some(i);
        }
        i += 1;
    }
    proof {
        assert forall|j: int| !occurs_at(hay@, needle@, j) by {
            if 0 <= j < hay_len {
                assert(!occurs_at(hay@, needle@, j));
            }
        }
    }
    None
}

} // verus!
