//! The verdict of a test case.
use vstd::prelude::*;

verus! {

/// The outcome of one test case.
#[derive(Debug, PartialEq, Eq)]
pub enum MarkResult {
    /// Clean exit with the expected output; user CPU time as seconds and microseconds.
    Success(i64, i64),
    /// Clean exit within time, but the captured output differs from the expected output.
    WrongAnswer,
    /// The build step failed; it carries the build's standard output.
    CompileError(String),
    /// Abnormal termination without a policy violation.
    RuntimeError,
    /// The CPU-time ceiling was exceeded.
    TimeLimitExceeded,
    /// The program attempted the syscall with this number, which is not allowed.
    PolicyViolation(u64),
}

impl MarkResult {
    pub open spec fn is_success(&self) -> bool {
        self is Success
    }

    /// A copy of the verdict.
    pub fn duplicate(&self) -> (r: MarkResult)
        ensures
            r == *self,
    {
        match self {
            MarkResult::Success(s, u) => MarkResult::Success(*s, *u),
            MarkResult::WrongAnswer => MarkResult::WrongAnswer,
            MarkResult::CompileError(d) => MarkResult::CompileError(d.clone()),
            MarkResult::RuntimeError => MarkResult::RuntimeError,
            MarkResult::TimeLimitExceeded => MarkResult::TimeLimitExceeded,
            MarkResult::PolicyViolation(n) => MarkResult::PolicyViolation(*n),
        }
    }

    /// Whether the verdict is a success.
    pub fn success(&self) -> (r: bool)
        ensures
            r == self.is_success(),
    {
        match self {
            MarkResult::Success(_, _) => true,
            _ => false,
        }
    }
}

} // verus!
