use cli_test::Test;
use cli_test::TestState;
use cli_test::errors::CliError;
use cli_test::errors::ValidationError;
use cli_test::expectations::CapturedOutput;
use cli_test::expectations::Expectation;
use cli_test::expectations::FailedExpectation;
use cli_test::run;
use cli_test::run_test;
use cli_test::TestCounts;
use cli_test::Failure;

fn test_case(
    name: &str,
    input: &str,
    out: Option<&str>,
    err: Option<&str>,
    exit_code: Option<i32>,
) -> Test {
    Test {
        name: name.to_string(),
        input: input.to_string(),
        out: out.map(|s| s.to_string()),
        err: err.map(|s| s.to_string()),
        exit_code,
    }
}

fn captured(stdout: &[u8], stderr: &[u8], exit_code: Option<i32>) -> CapturedOutput {
    CapturedOutput {
        stdout: stdout.to_vec(),
        stderr: stderr.to_vec(),
        exit_code,
    }
}

#[test]
fn passing_echo_test_gives_all_passed() {
    let tests = vec![test_case("echo", "echo hi", Some("hi\n"), None, None)];
    let outputs = vec![captured(b"hi\n", b"", Some(0))];
    let report = run(&tests, &outputs).unwrap();
    assert_eq!(report.counts, TestCounts { passed: 1, failed: 0 });
    assert!(report.failures.is_empty());
    assert_eq!(report.state, TestState::Passed);
}

#[test]
fn failing_stdout_test_gives_some_failed_with_one_record() {
    let tests = vec![test_case("bad", "echo wrong", Some("right\n"), None, None)];
    let outputs = vec![captured(b"wrong\n", b"", Some(0))];
    let report = run(&tests, &outputs).unwrap();
    assert_eq!(report.counts, TestCounts { passed: 0, failed: 1 });
    assert_eq!(report.state, TestState::Failed);
    assert_eq!(report.failures.len(), 1);
    let failure = &report.failures[0];
    assert_eq!(failure.name, "bad");
    assert_eq!(failure.failure_number, 1);
    assert_eq!(
        failure.failed_expectations,
        vec![FailedExpectation::StdOut(Expectation {
            expected: "right\n".to_string(),
            actual: "wrong\n".to_string(),
        })]
    );
}

#[test]
fn duplicate_names_abort_before_any_result_is_read() {
    let tests = vec![
        test_case("dup", "echo one", None, None, None),
        test_case("dup", "echo two", None, None, None),
    ];
    let outputs = vec![
        captured(b"one\n", b"", Some(0)),
        captured(b"two\n", b"", Some(0)),
    ];
    assert_eq!(
        run(&tests, &outputs),
        Err(CliError::Validation(ValidationError::DuplicateName(
            "dup".to_string()
        )))
    );
}

#[test]
fn expected_exit_code_alone_can_pass_a_test() {
    let tests = vec![test_case("exit", "exit 3", None, None, Some(3))];
    let outputs = vec![captured(b"", b"", Some(3))];
    let report = run(&tests, &outputs).unwrap();
    assert_eq!(report.counts, TestCounts { passed: 1, failed: 0 });
    assert_eq!(report.state, TestState::Passed);
}

#[test]
fn same_batch_twice_yields_identical_reports() {
    let tests = vec![
        test_case("ok", "echo hi", Some("hi\n"), None, None),
        test_case("bad", "echo wrong", Some("right\n"), None, None),
        test_case("warn", "cmd", None, Some("boom\n"), Some(1)),
    ];
    let outputs = vec![
        captured(b"hi\n", b"", Some(0)),
        captured(b"wrong\n", b"", Some(0)),
        captured(b"", b"bang\n", Some(1)),
    ];
    let first = run(&tests, &outputs).unwrap();
    let second = run(&tests, &outputs).unwrap();
    assert_eq!(first.counts, second.counts);
    assert_eq!(first.failures, second.failures);
    assert_eq!(first.state, second.state);
}

#[test]
fn failure_numbers_count_only_failures() {
    let tests = vec![
        test_case("first", "cmd", Some("a\n"), None, None),
        test_case("second", "cmd", Some("b\n"), None, None),
        test_case("third", "cmd", Some("c\n"), None, None),
    ];
    let outputs = vec![
        captured(b"x\n", b"", Some(0)),
        captured(b"b\n", b"", Some(0)),
        captured(b"z\n", b"", Some(0)),
    ];
    let report = run(&tests, &outputs).unwrap();
    assert_eq!(report.counts, TestCounts { passed: 1, failed: 2 });
    assert_eq!(report.failures.len(), 2);
    assert_eq!(report.failures[0].name, "first");
    assert_eq!(report.failures[0].failure_number, 1);
    assert_eq!(report.failures[1].name, "third");
    assert_eq!(report.failures[1].failure_number, 2);
}

#[test]
fn invalid_utf8_output_aborts_the_run() {
    let tests = vec![
        test_case("ok", "echo hi", Some("hi\n"), None, None),
        test_case("bin", "cmd", Some("hi\n"), None, None),
    ];
    let outputs = vec![
        captured(b"hi\n", b"", Some(0)),
        captured(&[0xff, 0xfe], b"", Some(0)),
    ];
    assert_eq!(run(&tests, &outputs), Err(CliError::InvalidUtf8));
}

#[test]
fn empty_batch_passes() {
    let tests: Vec<Test> = Vec::new();
    let outputs: Vec<CapturedOutput> = Vec::new();
    let report = run(&tests, &outputs).unwrap();
    assert_eq!(report.counts, TestCounts { passed: 0, failed: 0 });
    assert_eq!(report.state, TestState::Passed);
}

#[test]
fn run_test_accumulates_passes_and_failures() {
    let mut counts = TestCounts { passed: 0, failed: 0 };
    let mut failures: Vec<Failure> = Vec::new();

    let ok = test_case("ok", "echo hi", Some("hi\n"), None, None);
    let passed = run_test(&ok, &captured(b"hi\n", b"", Some(0)), &mut counts, &mut failures);
    assert_eq!(passed, Ok(true));
    assert_eq!(counts, TestCounts { passed: 1, failed: 0 });
    assert!(failures.is_empty());

    let bad = test_case("bad", "exit 1", None, None, Some(0));
    let passed = run_test(&bad, &captured(b"", b"", Some(1)), &mut counts, &mut failures);
    assert_eq!(passed, Ok(false));
    assert_eq!(counts, TestCounts { passed: 1, failed: 1 });
    assert_eq!(failures.len(), 1);
    assert_eq!(failures[0].name, "bad");
    assert_eq!(failures[0].failure_number, 1);
    assert_eq!(
        failures[0].failed_expectations,
        vec![FailedExpectation::ExitCode(Expectation { expected: 0, actual: 1 })]
    );
}

#[test]
fn run_test_leaves_state_untouched_on_decode_error() {
    let mut counts = TestCounts { passed: 2, failed: 1 };
    let mut failures: Vec<Failure> = Vec::new();
    let t = test_case("bin", "cmd", Some("hi\n"), None, None);
    let r = run_test(&t, &captured(&[0x80], b"", Some(0)), &mut counts, &mut failures);
    assert_eq!(r, Err(CliError::InvalidUtf8));
    assert_eq!(counts, TestCounts { passed: 2, failed: 1 });
    assert!(failures.is_empty());
}
