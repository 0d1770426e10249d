use vstd::prelude::*;

use crate::Failure;
use crate::RunReport;
use crate::Test;
use crate::batch_valid;
use crate::case_ok;
use crate::dup_at;
use crate::failed_count;
use crate::first_violation;
use crate::is_failure_seq;
use crate::report_matches;
use crate::violation_at;
use crate::expectations::CapturedOutput;
use crate::expectations::FailedExpectation;
use crate::expectations::is_mismatch_seq;
use crate::expectations::is_stdout_mismatch;

verus! {

/// A test with no expectations set yields an empty mismatch sequence,
/// whatever the command produced: it only confirms that the command ran.
pub proof fn lemma_no_expectations_no_mismatch(
    t: Test,
    stdout: Seq<char>,
    stderr: Seq<char>,
    exit: Option<i32>,
    s: Seq<FailedExpectation>,
)
    requires
        t.out is None,
        t.err is None,
        t.exit_code is None,
        is_mismatch_seq(s, t, stdout, stderr, exit),
    ensures
        s.len() == 0,
{
}

/// When stdout is checked and the captured text differs, the mismatch
/// sequence holds exactly one stdout mismatch — first, and with the
/// expected and actual texts preserved verbatim.
pub proof fn lemma_stdout_mismatch_verbatim(
    t: Test,
    stdout: Seq<char>,
    stderr: Seq<char>,
    exit: Option<i32>,
    s: Seq<FailedExpectation>,
)
    requires
        t.out is Some,
        stdout != t.out.unwrap()@,
        is_mismatch_seq(s, t, stdout, stderr, exit),
    ensures
        s.len() >= 1,
        is_stdout_mismatch(s[0], t, stdout),
        forall|i: int| 1 <= i < s.len() ==> !(#[trigger] s[i] is StdOut),
{
}

/// When an exit code is expected but the process produced none, the
/// mismatch sequence ends with the missing-exit-code note, and never
/// holds a numeric exit-code mismatch.
pub proof fn lemma_missing_exit_code(
    t: Test,
    stdout: Seq<char>,
    stderr: Seq<char>,
    s: Seq<FailedExpectation>,
)
    requires
        t.exit_code is Some,
        is_mismatch_seq(s, t, stdout, stderr, Option::<i32>::None),
    ensures
        s.len() >= 1,
        s.last() is MissingExitCode,
        forall|i: int| 0 <= i < s.len() ==> !(#[trigger] s[i] is ExitCode),
{
}

/// Wherever some test violates the scan, a first violating test exists.
pub proof fn lemma_first_violation_exists(ts: Seq<Test>, w: int)
    requires
        0 <= w < ts.len(),
        violation_at(ts, w),
    ensures
        exists|i: int| #[trigger] first_violation(ts, i),
    decreases w,
{
    if forall|k: int| 0 <= k < w ==> !violation_at(ts, k) {
        assert(first_violation(ts, w));
    } else {
        let k = choose|k: int| 0 <= k < w && violation_at(ts, k);
        lemma_first_violation_exists(ts, k);
    }
}

/// Two tests sharing a name make the whole batch invalid: validation must
/// refuse it, so no command of it is ever executed.
pub proof fn lemma_duplicate_names_invalid(ts: Seq<Test>, i: int, j: int)
    requires
        0 <= i < j < ts.len(),
        ts[i].name@ == ts[j].name@,
    ensures
        !batch_valid(ts),
{
    assert(dup_at(ts, j));
    assert(violation_at(ts, j));
}

/// In a batch whose declarations are each internally consistent, a shared
/// name is reported as a duplicate: the scan's first finding is then a
/// duplicate name, so validation fails with `DuplicateName`.
pub proof fn lemma_duplicate_names_reported(ts: Seq<Test>, i: int, j: int)
    requires
        0 <= i < j < ts.len(),
        ts[i].name@ == ts[j].name@,
        forall|k: int| 0 <= k < ts.len() ==> case_ok(#[trigger] ts[k]),
    ensures
        !batch_valid(ts),
        exists|m: int| #[trigger] first_violation(ts, m) && dup_at(ts, m),
{
    assert(dup_at(ts, j));
    lemma_first_violation_exists(ts, j);
    let m = choose|m: int| #[trigger] first_violation(ts, m);
    assert(dup_at(ts, m));
}

/// A test that checks stderr without pinning an exit code makes the whole
/// batch invalid: validation must refuse it.
pub proof fn lemma_stderr_needs_exit_code(ts: Seq<Test>, i: int)
    requires
        0 <= i < ts.len(),
        ts[i].err is Some,
        ts[i].exit_code is None,
    ensures
        !batch_valid(ts),
{
    assert(violation_at(ts, i));
}

/// In a batch of distinct names, the first test that checks stderr without
/// an exit code is where the scan stops, and it is not a duplicate: such a
/// batch fails validation with `MissingExitCode` and that test's name.
pub proof fn lemma_missing_exit_code_reported(ts: Seq<Test>, i: int)
    requires
        0 <= i < ts.len(),
        !case_ok(ts[i]),
        forall|a: int, b: int| 0 <= a < b < ts.len() ==> ts[a].name@ != ts[b].name@,
        forall|k: int| 0 <= k < i ==> case_ok(#[trigger] ts[k]),
    ensures
        first_violation(ts, i),
        !dup_at(ts, i),
        !batch_valid(ts),
{
    assert forall|k: int| 0 <= k < ts.len() implies !dup_at(ts, k) by {
        if dup_at(ts, k) {
            let j = choose|j: int| 0 <= j < k && ts[j].name@ == ts[k].name@;
            assert(ts[j].name@ != ts[k].name@);
        }
    }
    assert(violation_at(ts, i));
}

/// The two mismatches describe the same finding: the same channel, and the
/// same expected and actual values.
pub open spec fn mismatch_equiv(a: FailedExpectation, b: FailedExpectation) -> bool {
    match a {
        FailedExpectation::StdOut(e) => {
            &&& b matches FailedExpectation::StdOut(f)
            &&& e.expected@ == f.expected@
            &&& e.actual@ == f.actual@
        },
        FailedExpectation::StdErr(e) => {
            &&& b matches FailedExpectation::StdErr(f)
            &&& e.expected@ == f.expected@
            &&& e.actual@ == f.actual@
        },
        FailedExpectation::ExitCode(e) => {
            &&& b matches FailedExpectation::ExitCode(f)
            &&& e.expected == f.expected
            &&& e.actual == f.actual
        },
        FailedExpectation::MissingExitCode => b is MissingExitCode,
    }
}

/// The two sequences hold the same findings in the same order.
pub open spec fn mismatch_seq_equiv(a: Seq<FailedExpectation>, b: Seq<FailedExpectation>) -> bool {
    &&& a.len() == b.len()
    &&& forall|i: int| 0 <= i < a.len() ==> mismatch_equiv(#[trigger] a[i], #[trigger] b[i])
}

/// The two failure records agree on the name, the failure number, and every
/// recorded mismatch.
pub open spec fn failure_equiv(a: Failure, b: Failure) -> bool {
    &&& a.name@ == b.name@
    &&& a.failure_number == b.failure_number
    &&& mismatch_seq_equiv(a.failed_expectations@, b.failed_expectations@)
}

/// The two failure-record sequences agree record for record.
pub open spec fn failures_equiv(a: Seq<Failure>, b: Seq<Failure>) -> bool {
    &&& a.len() == b.len()
    &&& forall|i: int| 0 <= i < a.len() ==> failure_equiv(#[trigger] a[i], #[trigger] b[i])
}

/// The mismatch sequence of a test is determined by the test and the
/// captured values alone: two sequences both produced for the same test and
/// the same captured values are equal, finding for finding.
pub proof fn lemma_mismatch_seq_deterministic(
    s1: Seq<FailedExpectation>,
    s2: Seq<FailedExpectation>,
    t: Test,
    stdout: Seq<char>,
    stderr: Seq<char>,
    exit: Option<i32>,
)
    requires
        is_mismatch_seq(s1, t, stdout, stderr, exit),
        is_mismatch_seq(s2, t, stdout, stderr, exit),
    ensures
        mismatch_seq_equiv(s1, s2),
{
}

/// The failure records of a run grow deterministically: any two record
/// sequences for the same first `n` tests and captured outputs are equal,
/// record for record.
pub proof fn lemma_failure_seq_len(
    fs: Seq<Failure>,
    ts: Seq<Test>,
    os: Seq<CapturedOutput>,
    n: int,
)
    requires
        is_failure_seq(fs, ts, os, n),
    ensures
        fs.len() == failed_count(ts, os, n),
    decreases n,
{
    if n <= 0 {
    } else if crate::test_passes(ts[n - 1], os[n - 1]) {
        lemma_failure_seq_len(fs, ts, os, n - 1);
    } else {
        lemma_failure_seq_len(fs.drop_last(), ts, os, n - 1);
    }
}

/// Any two failure-record sequences for the same first `n` tests and the
/// same captured outputs agree record for record.
pub proof fn lemma_failure_seq_deterministic(
    fs1: Seq<Failure>,
    fs2: Seq<Failure>,
    ts: Seq<Test>,
    os: Seq<CapturedOutput>,
    n: int,
)
    requires
        is_failure_seq(fs1, ts, os, n),
        is_failure_seq(fs2, ts, os, n),
    ensures
        failures_equiv(fs1, fs2),
    decreases n,
{
    if n <= 0 {
    } else if crate::test_passes(ts[n - 1], os[n - 1]) {
        lemma_failure_seq_deterministic(fs1, fs2, ts, os, n - 1);
    } else {
        lemma_failure_seq_len(fs1, ts, os, n);
        lemma_failure_seq_len(fs2, ts, os, n);
        lemma_failure_seq_deterministic(fs1.drop_last(), fs2.drop_last(), ts, os, n - 1);
        let t = ts[n - 1];
        let o = os[n - 1];
        lemma_mismatch_seq_deterministic(
            fs1.last().failed_expectations@,
            fs2.last().failed_expectations@,
            t,
            vstd::utf8::decode_utf8(o.stdout@),
            vstd::utf8::decode_utf8(o.stderr@),
            o.exit_code,
        );
        assert(failure_equiv(fs1.last(), fs2.last()));
        assert forall|i: int| 0 <= i < fs1.len() implies failure_equiv(fs1[i], fs2[i]) by {
            if i < fs1.len() - 1 {
                assert(failure_equiv(fs1.drop_last()[i], fs2.drop_last()[i]));
            }
        }
    }
}

/// Running the same batch twice against the same captured outputs yields
/// the same tally, the same failure records, and the same overall outcome:
/// the report is a function of the tests and the captured outputs alone.
pub proof fn lemma_run_deterministic(
    r1: RunReport,
    r2: RunReport,
    ts: Seq<Test>,
    os: Seq<CapturedOutput>,
)
    requires
        report_matches(r1, ts, os),
        report_matches(r2, ts, os),
    ensures
        r1.counts == r2.counts,
        failures_equiv(r1.failures@, r2.failures@),
        r1.state == r2.state,
{
    lemma_failure_seq_deterministic(r1.failures@, r2.failures@, ts, os, ts.len() as int);
}

} // verus!
