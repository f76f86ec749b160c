//! Submission statuses: the overall state a graded submission can be in,
//! the per-case status tokens the sandbox and comparator produce, and the
//! numeric priority each token maps to for aggregation.

use vstd::prelude::*;
use vstd::string::*;

use crate::error::Error;
use crate::strutil::str_eq;

verus! {

/// The overall status of a submission.
#[derive(Debug, Clone, Copy, PartialEq, Eq, Structural)]
pub enum SubmissionStatus {
    Accepted,
    ComileError,
    JudgeError,
    MemoryLimitError,
    OutputLimitError,
    Pending,
    RuntimeError,
    TimeLimitError,
    WrongAnswer,
}

/// The numeric code of an overall status.
pub open spec fn status_code(s: SubmissionStatus) -> int {
    match s {
        SubmissionStatus::Pending => -1,
        SubmissionStatus::Accepted => 0,
        SubmissionStatus::WrongAnswer => 1,
        SubmissionStatus::ComileError => 2,
        SubmissionStatus::TimeLimitError => 3,
        SubmissionStatus::MemoryLimitError => 4,
        SubmissionStatus::RuntimeError => 5,
        SubmissionStatus::JudgeError => 6,
        SubmissionStatus::OutputLimitError => 7,
    }
}

/// The status a numeric code stands for; codes outside `-1 ..= 7` are
/// rejected.
pub open spec fn spec_status_from_code(value: int) -> Result<SubmissionStatus, Error> {
    if value == -1 {
        Ok(SubmissionStatus::Pending)
    } else if value == 0 {
        Ok(SubmissionStatus::Accepted)
    } else if value == 1 {
        Ok(SubmissionStatus::WrongAnswer)
    } else if value == 2 {
        Ok(SubmissionStatus::ComileError)
    } else if value == 3 {
        Ok(SubmissionStatus::TimeLimitError)
    } else if value == 4 {
        Ok(SubmissionStatus::MemoryLimitError)
    } else if value == 5 {
        Ok(SubmissionStatus::RuntimeError)
    } else if value == 6 {
        Ok(SubmissionStatus::JudgeError)
    } else if value == 7 {
        Ok(SubmissionStatus::OutputLimitError)
    } else {
        Err(Error::InvalidStatusCode)
    }
}

impl From<SubmissionStatus> for i32 {
    fn from(val: SubmissionStatus) -> (r: i32) {
        match val {
            SubmissionStatus::Pending => -1,
            SubmissionStatus::Accepted => 0,
            SubmissionStatus::WrongAnswer => 1,
            SubmissionStatus::ComileError => 2,
            SubmissionStatus::TimeLimitError => 3,
            SubmissionStatus::MemoryLimitError => 4,
            SubmissionStatus::RuntimeError => 5,
            SubmissionStatus::JudgeError => 6,
            SubmissionStatus::OutputLimitError => 7,
        }
    }
}

impl vstd::std_specs::convert::FromSpecImpl<SubmissionStatus> for i32 {
    open spec fn obeys_from_spec() -> bool {
        true
    }

    open spec fn from_spec(v: SubmissionStatus) -> i32 {
        status_code(v) as i32
    }
}

impl SubmissionStatus {
    /// The status a numeric code stands for.
    pub fn try_from(value: i32) -> (r: Result<SubmissionStatus, Error>)
        ensures
            r == spec_status_from_code(value as int),
    {
        match value {
            -1 => Ok(SubmissionStatus::Pending),
            0 => Ok(SubmissionStatus::Accepted),
            1 => Ok(SubmissionStatus::WrongAnswer),
            2 => Ok(SubmissionStatus::ComileError),
            3 => Ok(SubmissionStatus::TimeLimitError),
            4 => Ok(SubmissionStatus::MemoryLimitError),
            5 => Ok(SubmissionStatus::RuntimeError),
            6 => Ok(SubmissionStatus::JudgeError),
            7 => Ok(SubmissionStatus::OutputLimitError),
            _ => Err(Error::InvalidStatusCode),
        }
    }
}

/// The aggregation priority of a per-case status token. The eight known
/// tokens map to `0 ..= 7` in the order `AC`, `WA`, `CE`, `TLE`, `MLE`,
/// `RE`, `JE`, `OLE`; every other token maps to `-2` and is skipped by
/// the aggregator.
pub open spec fn spec_status_priority(s: Seq<char>) -> int {
    if s == "AC"@ {
        0
    } else if s == "WA"@ {
        1
    } else if s == "CE"@ {
        2
    } else if s == "TLE"@ {
        3
    } else if s == "MLE"@ {
        4
    } else if s == "RE"@ {
        5
    } else if s == "JE"@ {
        6
    } else if s == "OLE"@ {
        7
    } else {
        -2
    }
}

/// The numeric aggregation priority of a per-case status token.
#[must_use]
pub fn status_str_to_i32(s: &str) -> (r: i32)
    ensures
        r == spec_status_priority(s@),
{
    if str_eq(s, "AC") {
        0
    } else if str_eq(s, "WA") {
        1
    } else if str_eq(s, "CE") {
        2
    } else if str_eq(s, "TLE") {
        3
    } else if str_eq(s, "MLE") {
        4
    } else if str_eq(s, "RE") {
        5
    } else if str_eq(s, "JE") {
        6
    } else if str_eq(s, "OLE") {
        7
    } else {
        -2
    }
}

} // verus!
