//! The engine bridge's decisions: validation of the think-time setting
//! and recognition of the engine's `bestmove` reply line.
//!
//! The subprocess, its pipes and the reader thread live outside the
//! library; the library only builds the outbound command strings and
//! reads the inbound lines.

use vstd::prelude::*;
use crate::text::{parse_i32, parse_i32_spec};

verus! {

/// Why a think-time string was refused.  These are local validation
/// errors: the engine is never contacted with an invalid duration.
#[derive(Clone, Copy, Debug, PartialEq, Eq, Structural)]
pub enum DurationError {
    /// The string does not denote an integer.
    NotInteger,
    /// The denoted duration is zero or negative.
    NotPositive,
    /// The denoted duration exceeds the 10000 ms ceiling.
    TooLarge,
}

impl DurationError {
    /// The message text shown for this error.
    pub open spec fn spec_message(self) -> Seq<char> {
        match self {
            DurationError::NotInteger => "Engine calculation time must be an integer."@,
            DurationError::NotPositive => "Engine calculation time must be positive."@,
            DurationError::TooLarge => "Engine calculation time must be less than 10000 ms."@,
        }
    }

    /// Returns a human-readable description of the error.
    pub fn message(self) -> (r: &'static str)
        ensures
            r@ == self.spec_message(),
    {
        match self {
            DurationError::NotInteger => "Engine calculation time must be an integer.",
            DurationError::NotPositive => "Engine calculation time must be positive.",
            DurationError::TooLarge => "Engine calculation time must be less than 10000 ms.",
        }
    }
}

/// The validation verdict on a think-time string: the denoted duration
/// where it is an integer in `1..=10000` milliseconds, else the error.
pub open spec fn duration_of(s: Seq<char>) -> Result<int, DurationError> {
    match parse_i32_spec(s) {
        Some(v) => if v <= 0 {
            Err(DurationError::NotPositive)
        } else if v > 10000 {
            Err(DurationError::TooLarge)
        } else {
            Ok(v)
        },
        None => Err(DurationError::NotInteger),
    }
}

/// Validates a think-time string: it must denote an integer `t` with
/// `0 < t <= 10000` (milliseconds).  On any violation the engine is not
/// to be contacted.
pub fn validate_duration(s: &str) -> (r: Result<i32, DurationError>)
    ensures
        (match duration_of(s@) {
            Ok(v) => r is Ok && r.unwrap() as int == v,
            Err(e) => r == Err::<i32, DurationError>(e),
        }),
{
    match parse_i32(s) {
        Some(v) => if v <= 0 {
            Err(DurationError::NotPositive)
        } else if v > 10000 {
            Err(DurationError::TooLarge)
        } else {
            Ok(v)
        },
        None => Err(DurationError::NotInteger),
    }
}

/// Whether an engine output line announces the search result: it begins
/// with the literal token `bestmove`.
pub open spec fn is_bestmove_line(s: Seq<char>) -> bool {
    s.len() >= 8 && s.subrange(0, 8) == "bestmove"@
}

/// Tests whether an engine output line begins with `bestmove`.
pub fn line_is_bestmove(line: &str) -> (r: bool)
    ensures
        r == is_bestmove_line(line@),
{
    proof {
        reveal_strlit("bestmove");
    }
    let n = line.unicode_len();
    if n < 8 {
        return false;
    }
    let pat = "bestmove";
    let mut i: usize = 0;
    while i < 8
        invariant
            i <= 8,
            n == line@.len(),
            n >= 8,
            pat@ == "bestmove"@,
            pat@.len() == 8,
            forall|j: int| 0 <= j < i ==> line@[j] == pat@[j],
        decreases 8 - i,
    {
        if line.get_char(i) != pat.get_char(i) {
            proof {
                assert(line@.subrange(0, 8)[i as int] != "bestmove"@[i as int]);
            }
            return false;
        }
        i = i + 1;
    }
    proof {
        assert(line@.subrange(0, 8) =~= "bestmove"@);
    }
    true
}

/// The two command strings of one engine think request.
pub struct EngineRequest {
    /// Sets the engine's position: `position sfen <position string>`.
    pub position_command: String,
    /// Starts the search: `go byoyomi <validated duration>`.
    pub go_command: String,
}

} // verus!
