use pcs_judge::executor::{command_of, Executor};
use pcs_judge::judge::{classify, exceeds, input_bytes, judge_submission, CaseRun, ToMark};
use pcs_judge::process::Process;
use pcs_judge::verdict::MarkResult;

fn submission(n: usize, max_time: Option<u64>) -> ToMark {
    ToMark {
        batch: 7,
        answer: "print(4)".to_string(),
        lang: "python".to_string(),
        max_time,
        case_in: (0..n).map(|i| format!("{} {}", i, i)).collect(),
        case_out: (0..n).map(|i| format!("{}", 2 * i)).collect(),
    }
}

#[test]
fn exact_output_is_success() {
    let r = classify(MarkResult::Success(0, 250), Some(1), &b"4\n".to_vec(), &"4\n".to_string());
    assert_eq!(r, MarkResult::Success(0, 250));
}

#[test]
fn trailing_newline_is_wrong_answer() {
    let r = classify(MarkResult::Success(0, 250), Some(1), &b"4\n".to_vec(), &"4".to_string());
    assert_eq!(r, MarkResult::WrongAnswer);
}

#[test]
fn clean_exit_over_ceiling_is_time_limit() {
    let r = classify(MarkResult::Success(3, 0), Some(1), &b"4".to_vec(), &"4".to_string());
    assert_eq!(r, MarkResult::TimeLimitExceeded);
    let r = classify(MarkResult::Success(1, 1), Some(1), &b"4".to_vec(), &"4".to_string());
    assert_eq!(r, MarkResult::TimeLimitExceeded);
}

#[test]
fn exactly_at_ceiling_is_not_over() {
    let r = classify(MarkResult::Success(1, 0), Some(1), &b"4".to_vec(), &"4".to_string());
    assert_eq!(r, MarkResult::Success(1, 0));
    assert!(!exceeds(0, 999_999, 1));
    assert!(exceeds(0, 1_000_001, 1));
    assert!(!exceeds(i64::MAX, 999_999, u64::MAX));
    assert!(exceeds(i64::MAX, 1, i64::MAX as u64));
}

#[test]
fn no_ceiling_never_times_out() {
    let r = classify(MarkResult::Success(1000, 0), None, &b"ok".to_vec(), &"ok".to_string());
    assert_eq!(r, MarkResult::Success(1000, 0));
}

#[test]
fn tracer_failures_pass_through() {
    let out = b"4".to_vec();
    let exp = "4".to_string();
    assert_eq!(classify(MarkResult::RuntimeError, Some(1), &out, &exp), MarkResult::RuntimeError);
    assert_eq!(classify(MarkResult::TimeLimitExceeded, None, &out, &exp), MarkResult::TimeLimitExceeded);
    assert_eq!(classify(MarkResult::PolicyViolation(41), None, &out, &exp), MarkResult::PolicyViolation(41));
}

#[test]
fn non_ascii_output_compares_by_bytes() {
    let r = classify(MarkResult::Success(0, 0), None, &"é".as_bytes().to_vec(), &"é".to_string());
    assert_eq!(r, MarkResult::Success(0, 0));
    let r = classify(MarkResult::Success(0, 0), None, &vec![0xe9], &"é".to_string());
    assert_eq!(r, MarkResult::WrongAnswer);
}

#[test]
fn input_gets_a_terminator() {
    assert_eq!(input_bytes(&"2 2".to_string()), b"2 2\0".to_vec());
    assert_eq!(input_bytes(&String::new()), vec![0u8]);
}

#[test]
fn one_result_per_case_in_order() {
    let input = submission(3, Some(2));
    let runs = vec![
        CaseRun { reason: MarkResult::Success(0, 10), output: b"0".to_vec() },
        CaseRun { reason: MarkResult::Success(0, 10), output: b"3".to_vec() },
        CaseRun { reason: MarkResult::PolicyViolation(41), output: vec![] },
    ];
    let r = judge_submission(&input, None, &runs);
    assert_eq!(r.len(), 3);
    for (i, t) in r.iter().enumerate() {
        assert_eq!(t.batch, 7);
        assert_eq!(t.case as usize, i + 1);
    }
    assert_eq!(r[0].result, MarkResult::Success(0, 10));
    assert_eq!(r[1].result, MarkResult::WrongAnswer);
    assert_eq!(r[2].result, MarkResult::PolicyViolation(41));
}

#[test]
fn build_failure_is_one_compile_error() {
    let input = submission(4, None);
    let r = judge_submission(&input, Some("main.c:1: error".to_string()), &vec![]);
    assert_eq!(r.len(), 1);
    assert_eq!(r[0].batch, 7);
    assert_eq!(r[0].case, 0);
    assert_eq!(r[0].result, MarkResult::CompileError("main.c:1: error".to_string()));
}

#[test]
fn no_cases_no_results() {
    let input = submission(0, None);
    assert!(judge_submission(&input, None, &vec![]).is_empty());
}

#[test]
fn command_line_is_split_on_white_space() {
    let (p, a) = command_of(&"  /usr/bin/gcc\t-O2  main.c -o\u{3000}main \n".to_string()).unwrap();
    assert_eq!(p, "/usr/bin/gcc");
    assert_eq!(a, vec!["-O2", "main.c", "-o", "main"]);
    assert!(command_of(&" \t\n".to_string()).is_none());
    assert!(command_of(&String::new()).is_none());
}

#[test]
fn launch_uses_run_command_and_ceiling() {
    let e = Executor {
        filename: "main.c".to_string(),
        pre_exec: Some("gcc main.c -o main".to_string()),
        run: "./main --fast".to_string(),
        additional_syscalls: vec![],
    };
    let p = e.launch(Some(3)).unwrap();
    assert_eq!(p.exe(), "./main");
    assert_eq!(p.args(), &vec!["--fast".to_string()]);
    assert_eq!(p.pid(), None);
    assert_eq!(p.m_time, Some(3));
    assert_eq!(p.cpu_limit(), Some((3, 4)));
    let empty = Executor { run: " ".to_string(), ..e };
    assert!(empty.launch(None).is_none());
}

#[test]
fn cpu_limit_hard_bound() {
    let p = Process::new("a".to_string(), vec![], Some(u64::MAX));
    assert_eq!(p.cpu_limit(), Some((u64::MAX, u64::MAX)));
    let p = Process::new("a".to_string(), vec![], None);
    assert_eq!(p.cpu_limit(), None);
}

#[test]
fn spawn_is_recorded() {
    let mut p = Process::new("a".to_string(), vec!["x".to_string()], None);
    p.spawned(99, 3, 4);
    assert_eq!(p.pid(), Some(99));
    assert_eq!(p.stdin, 3);
    assert_eq!(p.stdout, 4);
}

#[test]
fn duplicate_keeps_the_verdict() {
    let v = MarkResult::CompileError("x".to_string());
    assert_eq!(v.duplicate(), v);
    assert!(MarkResult::Success(1, 2).success());
    assert!(!MarkResult::WrongAnswer.success());
}
