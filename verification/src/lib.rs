use vstd::prelude::*;

pub mod errors;
pub mod expectations;
pub mod laws;

use crate::errors::CliError;
use crate::errors::ValidationError;
use crate::expectations::CapturedOutput;
use crate::expectations::FailedExpectation;
use crate::expectations::is_mismatch_seq;
use crate::expectations::passes;
use crate::expectations::verify_expectations;
use vstd::utf8::decode_utf8;
use vstd::utf8::valid_utf8;

verus! {

/// One declared test: a name, a shell command, and the optional expectations
/// on what the command writes to stdout and stderr and how it exits.
///
/// An absent expectation means "this channel is not checked".
#[derive(Clone, Debug, PartialEq, Eq)]
pub struct Test {
    /// Identifier of the test, unique within a batch.
    pub name: String,
    /// Command line handed verbatim to a shell.
    pub input: String,
    /// Exact stdout text the command must produce, if checked.
    pub out: Option<String>,
    /// Exact stderr text the command must produce, if checked.
    pub err: Option<String>,
    /// Exit code the command must end with, if checked.
    pub exit_code: Option<i32>,
}

/// A well-formed single declaration: checking stderr requires pinning the
/// exit code as well.
pub open spec fn case_ok(t: Test) -> bool {
    t.err is Some ==> t.exit_code is Some
}

/// Test `i` repeats the name of an earlier test.
pub open spec fn dup_at(ts: Seq<Test>, i: int) -> bool {
    exists|j: int| 0 <= j < i && ts[j].name@ == ts[i].name@
}

/// A declaration-order scan stops at test `i`: either its name repeats an
/// earlier one, or it checks stderr without an exit code.
pub open spec fn violation_at(ts: Seq<Test>, i: int) -> bool {
    dup_at(ts, i) || !case_ok(ts[i])
}

/// The whole batch is well-formed: all names distinct, every declaration
/// internally consistent.
pub open spec fn batch_valid(ts: Seq<Test>) -> bool {
    forall|i: int| 0 <= i < ts.len() ==> !violation_at(ts, i)
}

/// Test `i` is the first place a declaration-order scan finds a violation.
pub open spec fn first_violation(ts: Seq<Test>, i: int) -> bool {
    &&& 0 <= i < ts.len()
    &&& violation_at(ts, i)
    &&& forall|k: int| 0 <= k < i ==> !violation_at(ts, k)
}

/// The error `e` describes the violation found at test `i`: a duplicate name
/// is reported as such, otherwise the missing exit code is, and either way
/// the offending test's name is carried along.
pub open spec fn reports_violation(e: ValidationError, ts: Seq<Test>, i: int) -> bool {
    if dup_at(ts, i) {
        e matches ValidationError::DuplicateName(n) && n@ == ts[i].name@
    } else {
        e matches ValidationError::MissingExitCode(n) && n@ == ts[i].name@
    }
}

/// Checks a batch of declarations for well-formedness before anything runs:
/// names must be unique, and a stderr expectation must come with an exit-code
/// expectation. The scan goes in declaration order and reports the first
/// violation it finds.
pub fn validate_tests(tests: &Vec<Test>) -> (r: Result<(), ValidationError>)
    ensures
        r is Ok <==> batch_valid(tests@),
        r matches Err(e) ==> exists|i: int|
            #[trigger] first_violation(tests@, i) && reports_violation(e, tests@, i),
{
    let n = tests.len();
    let mut i: usize = 0;
    while i < n
        invariant
            n == tests@.len(),
            i <= n,
            forall|k: int| 0 <= k < i ==> !violation_at(tests@, k),
        decreases n - i,
    {
        let mut j: usize = 0;
        while j < i
            invariant
                n == tests@.len(),
                j <= i < n,
                forall|k: int| 0 <= k < i ==> !violation_at(tests@, k),
                forall|k: int| 0 <= k < j ==> tests@[k].name@ != tests@[i as int].name@,
            decreases i - j,
        {
            if tests[j].name == tests[i].name {
                assert(dup_at(tests@, i as int));
                assert(first_violation(tests@, i as int));
                return Err(ValidationError::DuplicateName(tests[i].name.clone()));
            }
            j += 1;
        }
        assert(!dup_at(tests@, i as int));
        if tests[i].err.is_some() && tests[i].exit_code.is_none() {
            assert(first_violation(tests@, i as int));
            return Err(ValidationError::MissingExitCode(tests[i].name.clone()));
        }
        i += 1;
    }
    Ok(())
}

/// Running counts of passed and failed tests, grown one test at a time.
#[derive(Clone, Debug, PartialEq, Eq)]
pub struct TestCounts {
    pub passed: usize,
    pub failed: usize,
}

/// The record kept for one failing test: its name, its 1-based position
/// among the failures (for display numbering), and its mismatches in
/// channel order.
#[derive(Clone, Debug, PartialEq, Eq)]
pub struct Failure {
    pub name: String,
    pub failure_number: usize,
    pub failed_expectations: Vec<FailedExpectation>,
}

/// The overall outcome of a run.
#[derive(Clone, Copy, Debug, PartialEq, Eq)]
pub enum TestState {
    Passed,
    Failed,
}

/// Everything a completed run produced: the tally, the failure records in
/// the order the failing tests ran, and the overall outcome.
#[derive(Clone, Debug, PartialEq, Eq)]
pub struct RunReport {
    pub counts: TestCounts,
    pub failures: Vec<Failure>,
    pub state: TestState,
}

/// Both captured streams of this output decode as UTF-8.
pub open spec fn output_decodable(o: CapturedOutput) -> bool {
    valid_utf8(o.stdout@) && valid_utf8(o.stderr@)
}

/// The first `n` captured outputs all decode as UTF-8.
pub open spec fn all_decodable(os: Seq<CapturedOutput>, n: int) -> bool {
    forall|i: int| 0 <= i < n ==> output_decodable(#[trigger] os[i])
}

/// The test passes against this captured output: every checked channel
/// agrees with what the command produced.
pub open spec fn test_passes(t: Test, o: CapturedOutput) -> bool {
    passes(t, decode_utf8(o.stdout@), decode_utf8(o.stderr@), o.exit_code)
}

/// How many of the first `n` tests pass against their captured outputs.
pub open spec fn passed_count(ts: Seq<Test>, os: Seq<CapturedOutput>, n: int) -> int
    decreases n,
{
    if n <= 0 {
        0
    } else {
        passed_count(ts, os, n - 1) + (if test_passes(ts[n - 1], os[n - 1]) {
            1int
        } else {
            0int
        })
    }
}

/// How many of the first `n` tests fail against their captured outputs.
pub open spec fn failed_count(ts: Seq<Test>, os: Seq<CapturedOutput>, n: int) -> int
    decreases n,
{
    if n <= 0 {
        0
    } else {
        failed_count(ts, os, n - 1) + (if test_passes(ts[n - 1], os[n - 1]) {
            0int
        } else {
            1int
        })
    }
}

/// `f` is the failure record for test `t` with captured output `o`, filed
/// under the given 1-based failure number.
pub open spec fn is_failure_record(f: Failure, t: Test, o: CapturedOutput, number: int) -> bool {
    &&& f.name@ == t.name@
    &&& f.failure_number == number
    &&& is_mismatch_seq(
        f.failed_expectations@,
        t,
        decode_utf8(o.stdout@),
        decode_utf8(o.stderr@),
        o.exit_code,
    )
}

/// `fs` is exactly the sequence of failure records for the failing tests
/// among the first `n`, in running order, numbered 1 upward.
pub open spec fn is_failure_seq(
    fs: Seq<Failure>,
    ts: Seq<Test>,
    os: Seq<CapturedOutput>,
    n: int,
) -> bool
    decreases n,
{
    if n <= 0 {
        fs.len() == 0
    } else if test_passes(ts[n - 1], os[n - 1]) {
        is_failure_seq(fs, ts, os, n - 1)
    } else {
        &&& fs.len() >= 1
        &&& is_failure_seq(fs.drop_last(), ts, os, n - 1)
        &&& is_failure_record(fs.last(), ts[n - 1], os[n - 1], fs.len() as int)
    }
}

/// `report` is the one report a completed run over these tests and captured
/// outputs can produce: the tally counts the passing and failing tests, the
/// failure records are exactly those of the failing tests, and the outcome
/// is `Passed` exactly when nothing failed.
pub open spec fn report_matches(report: RunReport, ts: Seq<Test>, os: Seq<CapturedOutput>) -> bool {
    let n = ts.len() as int;
    &&& report.counts.passed == passed_count(ts, os, n)
    &&& report.counts.failed == failed_count(ts, os, n)
    &&& is_failure_seq(report.failures@, ts, os, n)
    &&& report.failures@.len() == failed_count(ts, os, n)
    &&& (report.state is Passed <==> failed_count(ts, os, n) == 0)
}

/// Settles one test whose command has run: verifies the expectations
/// against the captured output, then either counts a pass, or counts a
/// failure and appends its record, numbered by the new failure count.
/// Returns whether the test passed; a stream that is not valid UTF-8
/// aborts with an error and leaves the tally and records untouched.
pub fn run_test(
    test: &Test,
    output: &CapturedOutput,
    test_counts: &mut TestCounts,
    failures: &mut Vec<Failure>,
) -> (r: Result<bool, CliError>)
    requires
        old(test_counts).passed + old(test_counts).failed < usize::MAX,
    ensures
        r is Ok <==> output_decodable(*output),
        r matches Err(e) ==> e is InvalidUtf8 && *final(test_counts) == *old(test_counts)
            && final(failures)@ == old(failures)@,
        r matches Ok(passed_now) ==> ({
            &&& passed_now == test_passes(*test, *output)
            &&& passed_now ==> final(test_counts).passed == old(test_counts).passed + 1
                && final(test_counts).failed == old(test_counts).failed
                && final(failures)@ == old(failures)@
            &&& !passed_now ==> final(test_counts).failed == old(test_counts).failed + 1
                && final(test_counts).passed == old(test_counts).passed
                && final(failures)@.len() == old(failures)@.len() + 1
                && final(failures)@.drop_last() == old(failures)@
                && is_failure_record(
                    final(failures)@.last(),
                    *test,
                    *output,
                    final(test_counts).failed as int,
                )
        }),
{
    let failed_expectations = match verify_expectations(test, output) {
        Ok(v) => v,
        Err(e) => {
            return Err(e);
        },
    };

    if failed_expectations.is_empty() {
        test_counts.passed = test_counts.passed + 1;
        Ok(true)
    } else {
        test_counts.failed = test_counts.failed + 1;
        failures.push(
            Failure {
                name: test.name.clone(),
                failure_number: test_counts.failed,
                failed_expectations,
            },
        );
        Ok(false)
    }
}

/// Drives a whole batch against the outputs its commands produced, one
/// output per test: validates the declarations first — an ill-formed batch
/// aborts before anything is looked at — then settles each test in order
/// and closes the report with the tally, the numbered failure records, and
/// the overall outcome, which is `Passed` exactly when nothing failed.
pub fn run(tests: &Vec<Test>, outputs: &Vec<CapturedOutput>) -> (r: Result<RunReport, CliError>)
    requires
        outputs@.len() == tests@.len(),
    ensures
        !batch_valid(tests@) ==> (r matches Err(e) && e matches CliError::Validation(v)
            && exists|i: int| #[trigger] first_violation(tests@, i) && reports_violation(
            v,
            tests@,
            i,
        )),
        batch_valid(tests@) ==> ((r is Ok) <==> all_decodable(outputs@, tests@.len() as int)),
        batch_valid(tests@) && r is Err ==> (r matches Err(e) && e is InvalidUtf8),
        r matches Ok(report) ==> batch_valid(tests@) && report_matches(report, tests@, outputs@),
{
    match validate_tests(tests) {
        Ok(()) => {},
        Err(e) => {
            return Err(CliError::Validation(e));
        },
    }

    let mut test_counts = TestCounts { passed: 0, failed: 0 };
    let mut failures: Vec<Failure> = Vec::new();

    let n = tests.len();
    let mut i: usize = 0;
    while i < n
        invariant
            batch_valid(tests@),
            n == tests@.len(),
            outputs@.len() == tests@.len(),
            i <= n,
            all_decodable(outputs@, i as int),
            test_counts.passed == passed_count(tests@, outputs@, i as int),
            test_counts.failed == failed_count(tests@, outputs@, i as int),
            test_counts.passed + test_counts.failed == i,
            failures@.len() == failed_count(tests@, outputs@, i as int),
            is_failure_seq(failures@, tests@, outputs@, i as int),
        decreases n - i,
    {
        match run_test(&tests[i], &outputs[i], &mut test_counts, &mut failures) {
            Ok(_) => {},
            Err(e) => {
                return Err(e);
            },
        }
        i += 1;
    }

    let state = if test_counts.failed == 0 {
        TestState::Passed
    } else {
        TestState::Failed
    };
    Ok(RunReport { counts: test_counts, failures, state })
}

} // verus!
