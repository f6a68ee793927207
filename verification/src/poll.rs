//! The poll decision logic: trim one trailing newline from captured output,
//! compare it byte-for-byte against the target, and decide whether the loop
//! is finished or must retry after the interval's wait.

use vstd::prelude::*;
use vstd::slice::slice_index_get;
use vstd::slice::slice_subrange;
use crate::interval::Interval;
use crate::interval::Span;
use crate::interval::wait_of;

verus! {

/// The one byte that trimming may remove from the end of captured output.
pub const NEWLINE: u8 = 10;

/// The output bytes after trimming: one trailing newline byte is removed if
/// present, at most once, never more; any other input is left untouched.
pub open spec fn trim_newline_spec(s: Seq<u8>) -> Seq<u8> {
    if s.len() > 0 && s.last() == NEWLINE {
        s.drop_last()
    } else {
        s
    }
}

/// Strip exactly one trailing newline byte from the slice, if there is one.
pub fn trim_newline(s: &[u8]) -> (r: &[u8])
    ensures
        r@ == trim_newline_spec(s@),
{
    let n: usize = s.len();
    if n > 0 && *slice_index_get(s, n - 1) == NEWLINE {
        slice_subrange(s, 0, n - 1)
    } else {
        s
    }
}

/// Trimming removes exactly one trailing newline byte when one is present
/// and nothing otherwise: the result is always a prefix of the input, equal
/// to it but for the one byte.
pub proof fn lemma_trim_newline_at_most_once(s: Seq<u8>)
    ensures
        s.len() > 0 && s.last() == NEWLINE ==> trim_newline_spec(s) == s.take(s.len() - 1),
        !(s.len() > 0 && s.last() == NEWLINE) ==> trim_newline_spec(s) == s,
        trim_newline_spec(s).len() >= s.len() - 1,
        trim_newline_spec(s) == s.take(trim_newline_spec(s).len() as int),
{
    if s.len() > 0 && s.last() == NEWLINE {
        assert(trim_newline_spec(s) =~= s.take(s.len() - 1));
    } else {
        assert(trim_newline_spec(s) =~= s.take(s.len() as int));
    }
}

/// Compare two byte slices for exact equality.
pub fn bytes_eq(a: &[u8], b: &[u8]) -> (r: bool)
    ensures
        r == (a@ == b@),
{
    if a.len() != b.len() {
        return false;
    }
    let n: usize = a.len();
    let mut i: usize = 0;
    while i < n
        invariant
            n == a@.len(),
            a@.len() == b@.len(),
            i <= n,
            forall|j: int| 0 <= j < i ==> a@[j] == b@[j],
        decreases n - i,
    {
        if *slice_index_get(a, i) != *slice_index_get(b, i) {
            return false;
        }
        i = i + 1;
    }
    proof {
        assert(a@ =~= b@);
    }
    true
}

/// A poll attempt matches when the command exited successfully and its
/// standard output, after trimming one trailing newline, equals the target
/// byte-for-byte. This is the only condition that ever ends the loop.
pub open spec fn attempt_matches(success: bool, stdout: Seq<u8>, target: Seq<u8>) -> bool {
    success && trim_newline_spec(stdout) == target
}

/// Decide whether one poll attempt matched the target.
pub fn is_match(success: bool, stdout: &[u8], target: &[u8]) -> (r: bool)
    ensures
        r == attempt_matches(success, stdout@, target@),
{
    if !success {
        return false;
    }
    let trimmed = trim_newline(stdout);
    bytes_eq(trimmed, target)
}

/// An attempt with a failure exit status never matches, whatever its output:
/// the loop only ever retries after it, so the finishing command can never
/// be triggered by a failed attempt.
pub proof fn lemma_failure_never_matches(stdout: Seq<u8>, target: Seq<u8>)
    ensures
        !attempt_matches(false, stdout, target),
{
}

/// What the loop does after one poll attempt: stop, or retry after the
/// interval's wait.
#[derive(Clone, Copy, Debug, PartialEq, Eq)]
pub enum Step {
    /// The attempt matched: leave the loop and move on to the finishing
    /// command, if one was configured.
    Finish,
    /// The attempt did not match: wait the given span (or not at all when
    /// the span is absent) and poll again.
    Retry(Option<Span>),
}

/// Decide the loop's next step from one attempt's outcome. The step is
/// `Finish` exactly when the attempt matched; any other outcome — a failure
/// exit status or mismatching output, the two are not distinguished — leads
/// to a retry after the interval's wait.
pub fn poll_step(success: bool, stdout: &[u8], target: &[u8], interval: Interval) -> (r: Step)
    ensures
        attempt_matches(success, stdout@, target@) <==> r == Step::Finish,
        !attempt_matches(success, stdout@, target@) ==> r == Step::Retry(wait_of(interval)),
{
    if is_match(success, stdout, target) {
        Step::Finish
    } else {
        Step::Retry(interval.wait())
    }
}

/// The observable outcome of one poll attempt: whether the command exited
/// successfully, and the bytes it wrote to standard output.
#[derive(Debug)]
pub struct Attempt {
    pub success: bool,
    pub stdout: Vec<u8>,
}

/// Whether the attempt at position `i` of a trace matches the target.
pub open spec fn matches_at(attempts: Seq<Attempt>, target: Seq<u8>, i: int) -> bool {
    attempt_matches(attempts[i].success, attempts[i].stdout@, target)
}

/// Run the loop's decision over a finite trace of attempt outcomes: the loop
/// leaves the trace exactly at the first matching attempt, and runs off its
/// end — that is, retries forever — exactly when no attempt in it matches.
pub fn first_match(attempts: &Vec<Attempt>, target: &[u8]) -> (r: Option<usize>)
    ensures
        match r {
            Some(i) => i < attempts@.len() && matches_at(attempts@, target@, i as int)
                && (forall|j: int| 0 <= j < i ==> !matches_at(attempts@, target@, j)),
            None => forall|j: int|
                0 <= j < attempts@.len() ==> !matches_at(attempts@, target@, j),
        },
{
    let n: usize = attempts.len();
    let mut i: usize = 0;
    while i < n
        invariant
            n == attempts@.len(),
            i <= n,
            forall|j: int| 0 <= j < i ==> !matches_at(attempts@, target@, j),
        decreases n - i,
    {
        let attempt = &attempts[i];
        if is_match(attempt.success, attempt.stdout.as_slice(), target) {
            return Some(i);
        }
        i = i + 1;
    }
    None
}

} // verus!
