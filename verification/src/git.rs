//! Naming git repositories on disk.
//!
//! The git cache itself (cloning, fetching, commit lookup) is an outside
//! collaborator; this module only decides the directory name a repository
//! URL is cached under.

use vstd::prelude::*;

use crate::text::{chars_of, string_from_chars};

verus! {

/// Whether a character is alphanumeric under Unicode.
pub uninterp spec fn alphanumeric(c: char) -> bool;

/// Relies on `char::is_alphanumeric`: true exactly for the characters with
/// a Unicode alphabetic or numeric property, a function of the character
/// alone.
#[verifier::external_body]
fn char_is_alphanumeric(c: char) -> (r: bool)
    ensures
        r == alphanumeric(c),
{
    c.is_alphanumeric()
}

/// The file-system-safe name of a repository URL: every character that is
/// not alphanumeric becomes an underscore.  Callers hand the URL without
/// its query part.
pub fn fs_safe_url(url: &str) -> (r: String)
    ensures
        r@ == url@.map_values(
            |c: char|
                if alphanumeric(c) {
                    c
                } else {
                    '_'
                },
        ),
{
    let cs = chars_of(url);
    let mut out: Vec<char> = Vec::new();
    let mut i: usize = 0;
    while i < cs.len()
        invariant
            i <= cs@.len(),
            cs@ == url@,
            out@.len() == i,
            forall|k: int|
                0 <= k < i ==> #[trigger] out@[k] == if alphanumeric(url@[k]) {
                    url@[k]
                } else {
                    '_'
                },
        decreases cs@.len() - i,
    {
        let c = cs[i];
        if char_is_alphanumeric(c) {
            out.push(c);
        } else {
            out.push('_');
        }
        i = i + 1;
    }
    proof {
        assert(out@ =~= url@.map_values(
            |c: char|
                if alphanumeric(c) {
                    c
                } else {
                    '_'
                },
        ));
    }
    string_from_chars(&out)
}

} // verus!
