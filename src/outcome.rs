//! Outcomes of a run, the exit status each one maps to, and the version line.
use vstd::prelude::*;
use crate::request::UsageError;

verus! {

/// Why a run failed.
#[derive(Debug, Clone, PartialEq, Eq)]
pub enum CloneError {
    /// The command line was rejected before any work was done.
    Usage(UsageError),
    /// The selected source could not be resolved (a malformed URL, an unknown
    /// registry, a missing path); the message says why.
    SourceResolution(String),
    /// Fetching or writing the crates failed; the message says why.
    Provider(String),
}

/// The exit status of a run that failed.
pub const FAILURE_EXIT_CODE: i32 = 101;

/// The exit status of a run: 0 on success, 101 on any failure.
pub fn exit_code(outcome: &Result<(), CloneError>) -> (r: i32)
    ensures
        outcome is Ok ==> r == 0,
        outcome is Err ==> r == FAILURE_EXIT_CODE,
{
    match outcome {
        Ok(()) => 0,
        Err(_) => FAILURE_EXIT_CODE,
    }
}

/// The given part, or `d` where it is absent.
pub open spec fn part_or(o: Option<&str>, d: Seq<char>) -> Seq<char> {
    match o {
        Some(s) => s@,
        None => d,
    }
}

/// `major.minor.patch` followed by the pre-release part; an absent number
/// reads `X`, an absent pre-release part reads as nothing.
pub open spec fn spec_version(
    major: Option<&str>,
    minor: Option<&str>,
    patch: Option<&str>,
    pre: Option<&str>,
) -> Seq<char> {
    part_or(major, seq!['X']) + seq!['.'] + part_or(minor, seq!['X']) + seq!['.'] + part_or(
        patch,
        seq!['X'],
    ) + part_or(pre, Seq::<char>::empty())
}

/// The version line of the tool, from the parts of its package version.
pub fn version(
    major: Option<&str>,
    minor: Option<&str>,
    patch: Option<&str>,
    pre: Option<&str>,
) -> (r: String)
    ensures
        r@ == spec_version(major, minor, patch, pre),
{
    proof {
        reveal_strlit("X");
        reveal_strlit(".");
    }
    let mut r = String::new();
    r.append(
        match major {
            Some(s) => s,
            None => "X",
        },
    );
    r.append(".");
    r.append(
        match minor {
            Some(s) => s,
            None => "X",
        },
    );
    r.append(".");
    r.append(
        match patch {
            Some(s) => s,
            None => "X",
        },
    );
    match pre {
        Some(s) => r.append(s),
        None => {},
    }
    assert(r@ =~= spec_version(major, minor, patch, pre));
    r
}

} // verus!
