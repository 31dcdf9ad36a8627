//! Classifying test cases and assembling a submission's results.
use vstd::prelude::*;
use vstd::utf8::encode_utf8;
use crate::debugger::{Debugger, Next, TracerModel, exited, wait_step};
use crate::executor::Executor;
use crate::process::Process;
use crate::verdict::MarkResult;

verus! {

/// A submission to judge: its source text and language, the CPU-time ceiling
/// in whole seconds, and the test cases, input `i` paired with expected output `i`.
pub struct ToMark {
    pub batch: u32,
    pub answer: String,
    pub lang: String,
    pub max_time: Option<u64>,
    pub case_in: Vec<String>,
    pub case_out: Vec<String>,
}

/// The result of one test case; case 0 is a failed build.
pub struct ToSend {
    pub batch: u32,
    pub case: u32,
    pub result: MarkResult,
}

/// What the tracer decided for one test case, and the bytes the program wrote.
pub struct CaseRun {
    pub reason: MarkResult,
    pub output: Vec<u8>,
}

/// Whether `sec` s and `usec` µs of CPU time is strictly more than `max` s.
pub open spec fn over_time(sec: i64, usec: i64, max: u64) -> bool {
    sec * 1_000_000 + usec > max * 1_000_000
}

/// The verdict of a test case from the tracer's verdict, the ceiling, the
/// captured output and the expected output.
pub open spec fn final_verdict(reason: MarkResult, max_time: Option<u64>, output: Seq<u8>, expected: Seq<u8>) -> MarkResult {
    match reason {
        MarkResult::Success(sec, usec) => if max_time matches Some(m) && over_time(sec, usec, m) {
            MarkResult::TimeLimitExceeded
        } else if output == expected {
            MarkResult::Success(sec, usec)
        } else {
            MarkResult::WrongAnswer
        },
        other => other,
    }
}

/// The bytes written to a test case's standard input: its text, then a NUL.
pub open spec fn input_payload(text: Seq<char>) -> Seq<u8> {
    encode_utf8(text).push(0)
}

/// The result of case `i` (counted from 0) of a submission.
pub open spec fn case_result(input: &ToMark, runs: Seq<CaseRun>, i: int) -> ToSend {
    ToSend {
        batch: input.batch,
        case: (i + 1) as u32,
        result: final_verdict(runs[i].reason, input.max_time, runs[i].output@, encode_utf8(input.case_out@[i]@)),
    }
}

/// `r` holds one result per case, case `i + 1` at position `i`.
pub open spec fn all_cases(input: &ToMark, runs: Seq<CaseRun>, r: Seq<ToSend>) -> bool {
    &&& r.len() == input.case_in.len()
    &&& forall|i: int| 0 <= i < r.len() ==> #[trigger] r[i] == case_result(input, runs, i)
}

/// Every case gets exactly one result, and the results come in case order
/// 1..N: the result at position `i` is that of case `i + 1`.
pub proof fn lemma_one_result_per_case(input: &ToMark, runs: Seq<CaseRun>, r: Seq<ToSend>)
    requires
        all_cases(input, runs, r),
        input.case_in.len() < u32::MAX,
    ensures
        r.len() == input.case_in.len(),
        forall|i: int| 0 <= i < r.len() ==> #[trigger] r[i].case == i + 1,
        forall|i: int, j: int| 0 <= i < j < r.len() ==> #[trigger] r[i].case < #[trigger] r[j].case,
{
    assert forall|i: int| 0 <= i < r.len() implies #[trigger] r[i].case == i + 1 by {
        assert(r[i] == case_result(input, runs, i));
    }
}

/// A clean exit whose measured CPU time is strictly over the ceiling is a
/// time-limit verdict, whatever the output.
pub proof fn lemma_late_exit_is_time_limit(
    s: TracerModel,
    pid: i32,
    sec: i64,
    usec: i64,
    max: u64,
    output: Seq<u8>,
    expected: Seq<u8>,
)
    requires
        s.leader == Some(pid),
        s.blocked is None,
        over_time(sec, usec, max),
    ensures
        wait_step(s, pid, 0, sec, usec).1.next matches Next::Finish(v) && final_verdict(v, Some(max), output, expected)
            == MarkResult::TimeLimitExceeded,
{
    assert(exited(0)) by (bit_vector);
}

/// A clean exit within the ceiling is a success carrying the measured time when
/// the output equals the expected output byte for byte, and a wrong answer
/// otherwise.
pub proof fn lemma_clean_exit_compares_output(
    s: TracerModel,
    pid: i32,
    sec: i64,
    usec: i64,
    max_time: Option<u64>,
    output: Seq<u8>,
    expected: Seq<u8>,
)
    requires
        s.leader == Some(pid),
        s.blocked is None,
        max_time matches Some(m) ==> !over_time(sec, usec, m),
    ensures
        wait_step(s, pid, 0, sec, usec).1.next matches Next::Finish(v) && final_verdict(v, max_time, output, expected)
            == if output == expected {
            MarkResult::Success(sec, usec)
        } else {
            MarkResult::WrongAnswer
        },
{
    assert(exited(0)) by (bit_vector);
}

fn same_bytes(a: &[u8], b: &[u8]) -> (r: bool)
    ensures
        r == (a@ == b@),
{
    if a.len() != b.len() {
        return false;
    }
    let mut i: usize = 0;
    while i < a.len()
        invariant
            0 <= i <= a.len(),
            a.len() == b.len(),
            forall|j: int| 0 <= j < i ==> a@[j] == b@[j],
        decreases a.len() - i,
    {
        if a[i] != b[i] {
            return false;
        }
        i = i + 1;
    }
    assert(a@ =~= b@);
    true
}

/// Whether `sec` s and `usec` µs is strictly more than `max` s, computed exactly.
pub fn exceeds(sec: i64, usec: i64, max: u64) -> (r: bool)
    ensures
        r == over_time(sec, usec, max),
{
    (sec as i128) * 1_000_000 + (usec as i128) > (max as i128) * 1_000_000
}

/// Classifies a test case: a clean exit is re-checked against the ceiling, then
/// its output is compared byte for byte with the expected output; any other
/// verdict of the tracer stands.
pub fn classify(reason: MarkResult, max_time: Option<u64>, output: &Vec<u8>, expected: &String) -> (r: MarkResult)
    ensures
        r == final_verdict(reason, max_time, output@, encode_utf8(expected@)),
{
    match reason {
        MarkResult::Success(sec, usec) => {
            let late = match max_time {
                Some(m) => exceeds(sec, usec, m),
                None => false,
            };
            if late {
                MarkResult::TimeLimitExceeded
            } else if same_bytes(output.as_slice(), expected.as_str().as_bytes()) {
                MarkResult::Success(sec, usec)
            } else {
                MarkResult::WrongAnswer
            }
        },
        other => other,
    }
}

/// The bytes to write to a test case's standard input.
pub fn input_bytes(text: &String) -> (r: Vec<u8>)
    ensures
        r@ == input_payload(text@),
{
    let b = text.as_str().as_bytes();
    let mut r: Vec<u8> = Vec::new();
    let mut i: usize = 0;
    while i < b.len()
        invariant
            0 <= i <= b.len(),
            b@ == encode_utf8(text@),
            r@ == b@.subrange(0, i as int),
        decreases b.len() - i,
    {
        r.push(b[i]);
        i = i + 1;
        assert(r@ =~= b@.subrange(0, i as int));
    }
    assert(b@.subrange(0, b.len() as int) =~= b@);
    r.push(0);
    r
}

/// The tracer for one test case: the baseline allow-list together with the
/// language's additional syscalls.
pub fn tracer_for(process: &Process, executor: &Executor) -> (r: Debugger)
    ensures
        r@.leader == process@.pid,
        r@.allowed == crate::debugger::baseline().to_set() + executor.additional_syscalls@.to_set(),
        r@.children == Seq::<i32>::empty(),
        r@.in_syscall == Set::<i32>::empty(),
        r@.first,
        !r@.spawned,
        r@.blocked is None,
{
    let mut d = Debugger::standard(process);
    d.add_handler(executor.additional_syscalls.as_slice());
    d
}

/// The results of a submission: the single compile error of case 0 when the
/// build failed, otherwise one classified result per test case, in case order.
pub fn judge_submission(input: &ToMark, build_error: Option<String>, runs: &Vec<CaseRun>) -> (r: Vec<ToSend>)
    requires
        build_error is None ==> runs.len() == input.case_in.len(),
        input.case_out.len() == input.case_in.len(),
        input.case_in.len() < u32::MAX,
    ensures
        build_error matches Some(d) ==> r@ == seq![
            ToSend { batch: input.batch, case: 0, result: MarkResult::CompileError(d) },
        ],
        build_error is None ==> all_cases(input, runs@, r@),
{
    match build_error {
        Some(d) => {
            let r = vec![ToSend { batch: input.batch, case: 0, result: MarkResult::CompileError(d) }];
            assert(r@ =~= seq![ToSend { batch: input.batch, case: 0, result: MarkResult::CompileError(d) }]);
            r
        },
        None => {
            let mut r: Vec<ToSend> = Vec::new();
            let mut i: usize = 0;
            while i < runs.len()
                invariant
                    0 <= i <= runs.len(),
                    runs.len() == input.case_in.len(),
                    input.case_out.len() == input.case_in.len(),
                    input.case_in.len() < u32::MAX,
                    r.len() == i,
                    forall|j: int| 0 <= j < i ==> #[trigger] r@[j] == case_result(input, runs@, j),
                decreases runs.len() - i,
            {
                let run = &runs[i];
                let result = classify(run.reason.duplicate(), input.max_time, &run.output, &input.case_out[i]);
                r.push(ToSend { batch: input.batch, case: (i + 1) as u32, result });
                i = i + 1;
            }
            r
        },
    }
}

} // verus!
