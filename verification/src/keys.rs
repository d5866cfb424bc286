//! Deciding what a configured private key value is.
//!
//! The configured key is either the key material itself (it contains the
//! text `PRIVATE KEY`, as the PEM armour lines do) or a path to a key
//! file, possibly starting with `~`. The decision and the tilde expansion
//! are made here; writing inline material to a protected temporary file,
//! and checking that a path exists, are the caller's filesystem work.

use vstd::prelude::*;
use vstd::string::{StringExecFns, StrSliceExecFns};
use crate::scan::{find_text, occurs_at};

verus! {

/// What a configured private key value turned out to be.
#[derive(Clone, Copy, Debug, PartialEq, Eq, Structural)]
pub enum KeySource {
    /// The value is the key material itself and must be materialized into
    /// a file by the caller.
    InlineMaterial,
    /// The value is a filesystem path to an existing key file.
    FilePath,
}

/// The key value holds inline key material: the PEM armour text occurs in it.
pub open spec fn spec_is_inline(s: Seq<char>) -> bool {
    exists|i: int| occurs_at(s, "PRIVATE KEY"@, i)
}

/// Decides whether the configured key value is inline material or a path.
pub fn classify_key_input(key_input: &str) -> (r: KeySource)
    ensures
        r is InlineMaterial <==> spec_is_inline(key_input@),
{
    match find_text(key_input, "PRIVATE KEY") {
        Some(_) => KeySource::InlineMaterial,
        None => KeySource::FilePath,
    }
}

/// The view of an optional owned string.
pub open spec fn opt_str_view(o: Option<String>) -> Option<Seq<char>> {
    match o {
        Some(s) => Some(s@),
        None => None,
    }
}

/// How a path is expanded against a home directory: `~` alone becomes the
/// home directory; `~/rest` and `~\rest` become the home directory, one
/// separator, and the rest; anything else — including `~` with no home
/// directory known — is left as it is.
pub open spec fn spec_expand_tilde(path: Seq<char>, home: Option<Seq<char>>) -> Seq<char> {
    if path.len() >= 1 && path[0] == '~' && home is Some {
        if path.len() == 1 {
            home->0
        } else if path[1] == '/' || path[1] == '\\' {
            home->0 + "/"@ + path.skip(2)
        } else {
            path
        }
    } else {
        path
    }
}

/// Expands a leading `~` in `path` against the given home directory.
pub fn expand_tilde_with(path: &str, home: &Option<String>) -> (r: String)
    ensures
        r@ == spec_expand_tilde(path@, opt_str_view(*home)),
{
    let n = path.unicode_len();
    if n >= 1 && path.get_char(0) == '~' {
        match home {
            Some(h) => {
                if n == 1 {
                    h.clone()
                } else {
                    let c1 = path.get_char(1);
                    if c1 == '/' || c1 == '\\' {
                        let mut joined = h.clone();
                        joined.append("/");
                        let rest = path.substring_char(2, n);
                        joined.append(rest);
                        proof {
                            assert(path@.subrange(2, n as int) =~= path@.skip(2));
                        }
                        joined
                    } else {
                        String::from_str(path)
                    }
                }
            },
            None => String::from_str(path),
        }
    } else {
        String::from_str(path)
    }
}

/// Relies on dirs::home_dir: the platform's notion of the current user's
/// home directory. The result depends on the environment, so nothing is
/// promised of the value that comes back.
#[verifier::external_body]
fn query_home_dir() -> Option<String> {
    dirs::home_dir().map(|p| p.to_string_lossy().into_owned())
}

/// Expands a leading `~` in `path` against whatever home directory the
/// platform reports, if any.
pub fn expand_tilde(path: &str) -> (r: String)
    ensures
        exists|home: Option<Seq<char>>| r@ == spec_expand_tilde(path@, home),
{
    let home = query_home_dir();
    let r = expand_tilde_with(path, &home);
    proof {
        assert(r@ == spec_expand_tilde(path@, opt_str_view(home)));
    }
    r
}

/// The decision part of preparing a private key: inline material is handed
/// back unchanged for the caller to materialize into a protected file; a
/// path gets its leading `~` expanded for the caller to open.
pub fn resolve_key_input(key_input: &str) -> (r: (KeySource, String))
    ensures
        r.0 is InlineMaterial <==> spec_is_inline(key_input@),
        r.0 is InlineMaterial ==> r.1@ == key_input@,
        r.0 is FilePath ==> exists|home: Option<Seq<char>>|
            r.1@ == spec_expand_tilde(key_input@, home),
{
    match classify_key_input(key_input) {
        KeySource::InlineMaterial => (KeySource::InlineMaterial, String::from_str(key_input)),
        KeySource::FilePath => (KeySource::FilePath, expand_tilde(key_input)),
    }
}

} // verus!
