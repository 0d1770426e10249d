use vstd::prelude::*;

use crate::Test;
use crate::errors::CliError;
use vstd::utf8::valid_utf8;
use vstd::utf8::decode_utf8;

verus! {

/// One failed comparison: the expected value beside what was actually seen.
#[derive(Clone, Debug, PartialEq, Eq)]
pub struct Expectation<T> {
    pub expected: T,
    pub actual: T,
}

/// A mismatch on one of the three channels, or a missing exit code where one
/// was required for comparison.
#[derive(Clone, Debug, PartialEq, Eq)]
pub enum FailedExpectation {
    StdOut(Expectation<String>),
    StdErr(Expectation<String>),
    ExitCode(Expectation<i32>),
    MissingExitCode,
}

/// What the external executor captured from one command: the raw bytes of
/// both output streams, and the exit code — absent when the process was
/// terminated abnormally (for example by a signal) rather than exiting.
#[derive(Clone, Debug, PartialEq, Eq)]
pub struct CapturedOutput {
    pub stdout: Vec<u8>,
    pub stderr: Vec<u8>,
    pub exit_code: Option<i32>,
}

/// The stdout channel is checked and the captured text differs.
pub open spec fn wants_stdout_mismatch(t: Test, stdout: Seq<char>) -> bool {
    t.out matches Some(expected) && stdout != expected@
}

/// The stderr channel is checked and the captured text differs.
pub open spec fn wants_stderr_mismatch(t: Test, stderr: Seq<char>) -> bool {
    t.err matches Some(expected) && stderr != expected@
}

/// The exit code is checked, and either none was produced or it differs.
/// When no exit code is expected, nothing is checked, whatever was produced.
pub open spec fn wants_exit_mismatch(t: Test, exit: Option<i32>) -> bool {
    t.exit_code is Some && !(exit matches Some(a) && a == t.exit_code->0)
}

/// `m` records the stdout mismatch for this test, both texts verbatim.
pub open spec fn is_stdout_mismatch(m: FailedExpectation, t: Test, stdout: Seq<char>) -> bool {
    &&& m matches FailedExpectation::StdOut(e)
    &&& e.expected@ == t.out.unwrap()@
    &&& e.actual@ == stdout
}

/// `m` records the stderr mismatch for this test, both texts verbatim.
pub open spec fn is_stderr_mismatch(m: FailedExpectation, t: Test, stderr: Seq<char>) -> bool {
    &&& m matches FailedExpectation::StdErr(e)
    &&& e.expected@ == t.err.unwrap()@
    &&& e.actual@ == stderr
}

/// `m` records the exit-code finding: the two codes when one was produced,
/// and only the note that none was received when the process produced none.
pub open spec fn is_exit_mismatch(m: FailedExpectation, t: Test, exit: Option<i32>) -> bool {
    match exit {
        Some(a) => {
            &&& m matches FailedExpectation::ExitCode(e)
            &&& e.expected == t.exit_code->0
            &&& e.actual == a
        },
        None => m is MissingExitCode,
    }
}

/// `s` is exactly the mismatch sequence for this test and these captured
/// values: one entry per failing channel, in the fixed order stdout, then
/// stderr, then exit code, each carrying the expected and actual values.
pub open spec fn is_mismatch_seq(
    s: Seq<FailedExpectation>,
    t: Test,
    stdout: Seq<char>,
    stderr: Seq<char>,
    exit: Option<i32>,
) -> bool {
    let k1: int = if wants_stdout_mismatch(t, stdout) { 1int } else { 0int };
    let k2: int = if wants_stderr_mismatch(t, stderr) { 1int } else { 0int };
    let k3: int = if wants_exit_mismatch(t, exit) { 1int } else { 0int };
    &&& s.len() == k1 + k2 + k3
    &&& k1 == 1 ==> is_stdout_mismatch(s[0], t, stdout)
    &&& k2 == 1 ==> is_stderr_mismatch(s[k1], t, stderr)
    &&& k3 == 1 ==> is_exit_mismatch(s[k1 + k2], t, exit)
}

/// Every checked channel agrees with what was captured: the test passes.
pub open spec fn passes(t: Test, stdout: Seq<char>, stderr: Seq<char>, exit: Option<i32>) -> bool {
    &&& !wants_stdout_mismatch(t, stdout)
    &&& !wants_stderr_mismatch(t, stderr)
    &&& !wants_exit_mismatch(t, exit)
}

/// Relies on core::str::from_utf8: it succeeds exactly on valid UTF-8 input,
/// and then yields that input's decoding.
#[verifier::external_body]
fn decode_stream(bytes: &Vec<u8>) -> (r: Option<String>)
    ensures
        r is Some <==> valid_utf8(bytes@),
        r matches Some(s) ==> s@ == decode_utf8(bytes@),
{
    core::str::from_utf8(bytes.as_slice()).ok().map(|s| s.to_owned())
}

/// Checks the captured stdout text against the test's expectation, if any.
pub fn verify_stdout(test: &Test, stdout: &String) -> (r: Option<FailedExpectation>)
    ensures
        r is Some <==> wants_stdout_mismatch(*test, stdout@),
        r matches Some(m) ==> is_stdout_mismatch(m, *test, stdout@),
{
    match &test.out {
        Some(expected_out) => {
            if !stdout.eq(expected_out) {
                Some(FailedExpectation::StdOut(Expectation {
                    actual: stdout.clone(),
                    expected: expected_out.clone(),
                }))
            } else {
                None
            }
        },
        None => None,
    }
}

/// Checks the captured stderr text against the test's expectation, if any.
pub fn verify_stderr(test: &Test, stderr: &String) -> (r: Option<FailedExpectation>)
    ensures
        r is Some <==> wants_stderr_mismatch(*test, stderr@),
        r matches Some(m) ==> is_stderr_mismatch(m, *test, stderr@),
{
    match &test.err {
        Some(expected_err) => {
            if !stderr.eq(expected_err) {
                Some(FailedExpectation::StdErr(Expectation {
                    actual: stderr.clone(),
                    expected: expected_err.clone(),
                }))
            } else {
                None
            }
        },
        None => None,
    }
}

/// Checks the exit code against the test's expectation, if any. A checked
/// exit code that was never produced is reported as missing, never as a
/// numeric mismatch; an unchecked exit code is ignored entirely.
pub fn verify_exit_code(test: &Test, exit_code: Option<i32>) -> (r: Option<FailedExpectation>)
    ensures
        r is Some <==> wants_exit_mismatch(*test, exit_code),
        r matches Some(m) ==> is_exit_mismatch(m, *test, exit_code),
{
    match (test.exit_code, exit_code) {
        (Some(expected), Some(actual)) => {
            if actual != expected {
                Some(FailedExpectation::ExitCode(Expectation { actual, expected }))
            } else {
                None
            }
        },
        (Some(_), None) => Some(FailedExpectation::MissingExitCode),
        (None, _) => None,
    }
}

/// Decodes the captured streams and runs the three channel checks in their
/// fixed order, collecting one mismatch per failing channel. A stream that
/// is not valid UTF-8 aborts with an error instead of producing mismatches:
/// the test's outcome could not be determined.
pub fn verify_expectations(test: &Test, output: &CapturedOutput) -> (r: Result<
    Vec<FailedExpectation>,
    CliError,
>)
    ensures
        r is Ok <==> valid_utf8(output.stdout@) && valid_utf8(output.stderr@),
        r matches Err(e) ==> e is InvalidUtf8,
        r matches Ok(v) ==> is_mismatch_seq(
            v@,
            *test,
            decode_utf8(output.stdout@),
            decode_utf8(output.stderr@),
            output.exit_code,
        ),
{
    let stdout = match decode_stream(&output.stdout) {
        Some(s) => s,
        None => {
            return Err(CliError::InvalidUtf8);
        },
    };
    let stderr = match decode_stream(&output.stderr) {
        Some(s) => s,
        None => {
            return Err(CliError::InvalidUtf8);
        },
    };

    let mut failed_expectations: Vec<FailedExpectation> = Vec::new();

    if let Some(failed_expectation) = verify_stdout(test, &stdout) {
        failed_expectations.push(failed_expectation);
    }
    if let Some(failed_expectation) = verify_stderr(test, &stderr) {
        failed_expectations.push(failed_expectation);
    }
    if let Some(failed_expectation) = verify_exit_code(test, output.exit_code) {
        failed_expectations.push(failed_expectation);
    }

    Ok(failed_expectations)
}

} // verus!
