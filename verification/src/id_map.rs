//! Subordinate-id mapping.
//!
//! After the first fork unshares a user namespace, the host installs an
//! identity mapping into it by running the setuid helpers `newuidmap` and
//! `newgidmap`.  The rules live here: how a subordinate-id file is searched
//! for the caller's entry, what range such an entry must offer, and exactly
//! which arguments the helpers are handed.  Reading the files and spawning
//! the helpers stays outside.

use vstd::prelude::*;

use crate::num::{parse_u64, spec_dec_digits, spec_dec_string_value, spec_is_dec_string, dec_string};
use crate::text::{chars_eq, chars_of, lines_of, spec_lines, split_char, spec_split_char};

verus! {

/// Why no mapping could be installed.
#[derive(Copy, Clone, Debug, PartialEq, Eq, Structural)]
pub enum IdMapError {
    /// The subordinate-id file has no entry for the caller; `gid` says
    /// whether the gid file (true) or the uid file (false) lacked it.
    MissingEntry { gid: bool },
    /// The entry found offers fewer than 65536 ids.
    RangeTooShort { gid: bool },
    /// The caller's entry is present but not of the form name:start:length.
    BadLine,
    /// A mapping helper exited with this non-zero status.
    HelperFailed { status: i32 },
}

/// The smallest subordinate range the sandbox can work with.
pub const MIN_RANGE: u64 = 65536;

/// A line is the caller's entry when it is not blank and its first
/// colon-separated field equals the login name.
pub open spec fn spec_line_matches(line: Seq<char>, name: Seq<char>) -> bool {
    line.len() > 0 && spec_split_char(line, ':')[0] == name
}

/// The range an entry line offers: its second and third fields read as
/// decimal start and length.  A matching line without both numbers is
/// malformed.
pub open spec fn spec_entry_of_line(line: Seq<char>) -> Option<(u64, u64)> {
    let fs = spec_split_char(line, ':');
    if fs.len() >= 3 && spec_is_dec_string(fs[1]) && spec_dec_string_value(fs[1]) <= u64::MAX
        && spec_is_dec_string(fs[2]) && spec_dec_string_value(fs[2]) <= u64::MAX {
        Some(
            (
                spec_dec_string_value(fs[1]) as u64,
                spec_dec_string_value(fs[2]) as u64,
            ),
        )
    } else {
        None
    }
}

/// The first line that is the caller's entry, or -1.
pub open spec fn spec_first_match(ls: Seq<Seq<char>>, name: Seq<char>) -> int
    decreases ls.len(),
{
    if ls.len() == 0 {
        -1
    } else if spec_line_matches(ls[0], name) {
        0
    } else {
        let r = spec_first_match(ls.drop_first(), name);
        if r < 0 {
            -1
        } else {
            r + 1
        }
    }
}

/// What searching a subordinate-id file for a name yields: the first
/// matching entry's range, nothing when no line matches, or a malformed
/// first match.
pub open spec fn spec_lookup(content: Seq<char>, name: Seq<char>) -> Result<
    Option<(u64, u64)>,
    IdMapError,
> {
    let ls = spec_lines(content);
    let i = spec_first_match(ls, name);
    if i < 0 || i >= ls.len() {
        Ok(None)
    } else {
        match spec_entry_of_line(ls[i]) {
            Some(e) => Ok(Some(e)),
            None => Err(IdMapError::BadLine),
        }
    }
}

proof fn lemma_first_match_is(ls: Seq<Seq<char>>, name: Seq<char>, i: int)
    requires
        0 <= i <= ls.len(),
        forall|k: int| 0 <= k < i ==> !spec_line_matches(#[trigger] ls[k], name),
        i == ls.len() || spec_line_matches(ls[i], name),
    ensures
        spec_first_match(ls, name) == if i == ls.len() {
            -1int
        } else {
            i
        },
    decreases ls.len(),
{
    if ls.len() == 0 {
    } else if spec_line_matches(ls[0], name) {
        assert(i == 0);
    } else {
        assert(i >= 1);
        lemma_first_match_is(ls.drop_first(), name, i - 1);
    }
}

/// Searches the text of a subordinate-id file for the first entry of the
/// given name, exactly as `spec_lookup` relates.
pub fn find_first_entry(content: &str, name: &str) -> (r: Result<Option<(u64, u64)>, IdMapError>)
    ensures
        r == spec_lookup(content@, name@),
{
    let content_chars = chars_of(content);
    let name_chars = chars_of(name);
    let lines = lines_of(&content_chars);
    let ghost ls = spec_lines(content@);
    let mut i: usize = 0;
    while i < lines.len()
        invariant
            i <= lines@.len(),
            name_chars@ == name@,
            ls == spec_lines(content@),
            lines@.map_values(|p: Vec<char>| p@) == ls,
            forall|k: int| 0 <= k < i ==> !spec_line_matches(#[trigger] ls[k], name@),
        decreases lines@.len() - i,
    {
        let line = &lines[i];
        proof {
            assert(line@ == ls[i as int]);
        }
        if line.len() > 0 {
            let fields = split_char(&line, ':');
            proof {
                assert(fields@.map_values(|p: Vec<char>| p@)[0] == fields@[0]@);
            }
            if chars_eq(&fields[0], &name_chars) {
                proof {
                    assert(spec_line_matches(ls[i as int], name@));
                    lemma_first_match_is(ls, name@, i as int);
                }
                if fields.len() < 3 {
                    return Err(IdMapError::BadLine);
                }
                proof {
                    assert(fields@.map_values(|p: Vec<char>| p@)[1] == fields@[1]@);
                    assert(fields@.map_values(|p: Vec<char>| p@)[2] == fields@[2]@);
                }
                let start = match parse_u64(&fields[1]) {
                    Some(v) => v,
                    None => {
                        return Err(IdMapError::BadLine);
                    },
                };
                let len = match parse_u64(&fields[2]) {
                    Some(v) => v,
                    None => {
                        return Err(IdMapError::BadLine);
                    },
                };
                return Ok(Some((start, len)));
            }
        }
        proof {
            if line@.len() > 0 {
                assert(!spec_line_matches(ls[i as int], name@));
            }
        }
        i = i + 1;
    }
    proof {
        lemma_first_match_is(ls, name@, ls.len() as int);
    }
    Ok(None)
}

/// The argument list of one mapping helper: the target pid, then the
/// mapping 0 -> caller's id (one id), then the mapping 1 -> subordinate
/// range start (65535 ids).
pub open spec fn spec_helper_args(pid: u64, host_id: u64, sub_start: u64) -> Seq<Seq<char>> {
    seq![
        spec_dec_digits(pid as nat),
        spec_dec_digits(0),
        spec_dec_digits(host_id as nat),
        spec_dec_digits(1),
        spec_dec_digits(1),
        spec_dec_digits(sub_start as nat),
        spec_dec_digits(65535),
    ]
}

fn build_helper_args(pid: u64, host_id: u64, sub_start: u64) -> (r: Vec<String>)
    ensures
        r@.map_values(|s: String| s@) == spec_helper_args(pid, host_id, sub_start),
{
    let mut r: Vec<String> = Vec::new();
    r.push(dec_string(pid));
    r.push(dec_string(0));
    r.push(dec_string(host_id));
    r.push(dec_string(1));
    r.push(dec_string(1));
    r.push(dec_string(sub_start));
    r.push(dec_string(65535));
    proof {
        assert(r@.map_values(|s: String| s@) =~= spec_helper_args(pid, host_id, sub_start));
    }
    r
}

/// The argument lists for the two mapping helpers.
#[derive(Debug)]
pub struct IdMapPlan {
    /// Arguments to hand `newuidmap`.
    pub uid_args: Vec<String>,
    /// Arguments to hand `newgidmap`.
    pub gid_args: Vec<String>,
}

/// What planning the two mappings yields from the two file texts: the
/// helper argument lists, or the first thing wrong with the files.  Both
/// entries must offer at least `MIN_RANGE` ids.
pub open spec fn spec_plan(
    login: Seq<char>,
    subuid: Seq<char>,
    subgid: Seq<char>,
    pid: u64,
    euid: u64,
    egid: u64,
) -> Result<(Seq<Seq<char>>, Seq<Seq<char>>), IdMapError> {
    match spec_lookup(subuid, login) {
        Err(e) => Err(e),
        Ok(None) => Err(IdMapError::MissingEntry { gid: false }),
        Ok(Some((uid_start, uid_len))) => match spec_lookup(subgid, login) {
            Err(e) => Err(e),
            Ok(None) => Err(IdMapError::MissingEntry { gid: true }),
            Ok(Some((gid_start, gid_len))) => {
                if uid_len < MIN_RANGE {
                    Err(IdMapError::RangeTooShort { gid: false })
                } else if gid_len < MIN_RANGE {
                    Err(IdMapError::RangeTooShort { gid: true })
                } else {
                    Ok(
                        (
                            spec_helper_args(pid, euid, uid_start),
                            spec_helper_args(pid, egid, gid_start),
                        ),
                    )
                }
            },
        },
    }
}

/// Decides the two helper invocations from the texts of the subordinate-id
/// files, the login name, the target pid and the caller's effective ids.
pub fn plan_id_maps(
    login: &str,
    subuid: &str,
    subgid: &str,
    pid: u64,
    euid: u64,
    egid: u64,
) -> (r: Result<IdMapPlan, IdMapError>)
    ensures
        spec_plan(login@, subuid@, subgid@, pid, euid, egid) matches Ok(args) ==> (r matches Ok(
            plan,
        ) && plan.uid_args@.map_values(|s: String| s@) == args.0 && plan.gid_args@.map_values(
            |s: String| s@,
        ) == args.1),
        spec_plan(login@, subuid@, subgid@, pid, euid, egid) matches Err(e) ==> r matches Err(e2)
            && e2 == e,
{
    let uid_entry = match find_first_entry(subuid, login) {
        Err(e) => {
            return Err(e);
        },
        Ok(None) => {
            return Err(IdMapError::MissingEntry { gid: false });
        },
        Ok(Some(e)) => e,
    };
    let gid_entry = match find_first_entry(subgid, login) {
        Err(e) => {
            return Err(e);
        },
        Ok(None) => {
            return Err(IdMapError::MissingEntry { gid: true });
        },
        Ok(Some(e)) => e,
    };
    if uid_entry.1 < MIN_RANGE {
        return Err(IdMapError::RangeTooShort { gid: false });
    }
    if gid_entry.1 < MIN_RANGE {
        return Err(IdMapError::RangeTooShort { gid: true });
    }
    Ok(
        IdMapPlan {
            uid_args: build_helper_args(pid, euid, uid_entry.0),
            gid_args: build_helper_args(pid, egid, gid_entry.0),
        },
    )
}

/// Reads a mapping helper's exit status: only a clean exit counts as an
/// installed mapping.
pub fn helper_result(exit_status: i32) -> (r: Result<(), IdMapError>)
    ensures
        exit_status == 0 ==> r is Ok,
        exit_status != 0 ==> r == Err::<(), IdMapError>(IdMapError::HelperFailed {
            status: exit_status,
        }),
{
    if exit_status == 0 {
        Ok(())
    } else {
        Err(IdMapError::HelperFailed { status: exit_status })
    }
}

} // verus!
