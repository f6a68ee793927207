use poll_until::Attempt;
use poll_until::Command;
use poll_until::Interval;
use poll_until::Span;
use poll_until::Step;
use poll_until::bytes_eq;
use poll_until::first_match;
use poll_until::is_match;
use poll_until::poll_step;
use poll_until::trim_newline;

#[test]
fn trim_removes_one_trailing_newline() {
    assert_eq!(trim_newline(b"hello\n"), b"hello");
}

#[test]
fn trim_leaves_input_without_newline_unchanged() {
    assert_eq!(trim_newline(b"hello"), b"hello");
}

#[test]
fn trim_removes_at_most_one_newline() {
    assert_eq!(trim_newline(b"hello\n\n"), b"hello\n");
    assert_eq!(trim_newline(b"\n\n\n"), b"\n\n");
}

#[test]
fn trim_of_empty_is_empty() {
    assert_eq!(trim_newline(b""), b"");
}

#[test]
fn trim_of_lone_newline_is_empty() {
    assert_eq!(trim_newline(b"\n"), b"");
}

#[test]
fn trim_leaves_interior_newlines() {
    assert_eq!(trim_newline(b"a\nb\n"), b"a\nb");
}

#[test]
fn bytes_eq_on_equal_and_unequal_slices() {
    assert!(bytes_eq(b"", b""));
    assert!(bytes_eq(b"done", b"done"));
    assert!(!bytes_eq(b"done", b"don"));
    assert!(!bytes_eq(b"done", b"dome"));
    assert!(!bytes_eq(b"", b"x"));
}

#[test]
fn match_requires_success_and_equal_trimmed_output() {
    assert!(is_match(true, b"hello\n", b"hello"));
    assert!(is_match(true, b"hello", b"hello"));
    assert!(!is_match(true, b"hello\n\n", b"hello"));
    assert!(!is_match(true, b"goodbye\n", b"hello"));
    assert!(!is_match(false, b"hello\n", b"hello"));
}

#[test]
fn failed_attempt_never_matches_even_with_exact_output() {
    assert!(!is_match(false, b"done", b"done"));
    assert!(!is_match(false, b"done\n", b"done"));
}

#[test]
fn zero_duration_gives_immediate_interval() {
    let interval = Interval::from(Span::new(0, 0));
    assert_eq!(interval, Interval::Immediate);
    assert_eq!(interval.wait(), None);
}

#[test]
fn nonzero_duration_gives_delayed_interval() {
    let five = Span::new(5, 0);
    let interval = Interval::from(five);
    assert_eq!(interval, Interval::Delayed(five));
    assert_eq!(interval.wait(), Some(five));

    let half = Span::new(0, 500_000_000);
    assert_eq!(Interval::from(half), Interval::Delayed(half));
}

#[test]
fn span_zero_check() {
    assert!(Span::new(0, 0).is_zero());
    assert!(!Span::new(1, 0).is_zero());
    assert!(!Span::new(0, 1).is_zero());
}

#[test]
fn matching_attempt_finishes_immediately() {
    // `echo hello` with target "hello": one attempt, the loop ends at once.
    let step = poll_step(true, b"hello\n", b"hello", Interval::Delayed(Span::new(5, 0)));
    assert_eq!(step, Step::Finish);
}

#[test]
fn mismatch_with_zero_interval_retries_without_wait() {
    // `echo hello` with target "goodbye" and a zero interval: every step is
    // a retry with no wait, so the loop never ends on its own.
    for _ in 0..100 {
        let step = poll_step(true, b"hello\n", b"goodbye", Interval::Immediate);
        assert_eq!(step, Step::Retry(None));
    }
}

#[test]
fn mismatch_with_delay_waits_the_configured_span() {
    let step = poll_step(true, b"hello\n", b"goodbye", Interval::Delayed(Span::new(2, 0)));
    assert_eq!(step, Step::Retry(Some(Span::new(2, 0))));
}

#[test]
fn failure_exit_retries_regardless_of_output() {
    let step = poll_step(false, b"done\n", b"done", Interval::Immediate);
    assert_eq!(step, Step::Retry(None));
}

#[test]
fn alternating_failures_end_at_the_done_attempt() {
    // A command that alternates between exiting 1 and printing "done": the
    // loop retries until the first matching attempt.
    let attempts = vec![
        Attempt { success: false, stdout: b"".to_vec() },
        Attempt { success: true, stdout: b"not yet\n".to_vec() },
        Attempt { success: false, stdout: b"done\n".to_vec() },
        Attempt { success: true, stdout: b"done\n".to_vec() },
        Attempt { success: true, stdout: b"done\n".to_vec() },
    ];
    assert_eq!(first_match(&attempts, b"done"), Some(3));
}

#[test]
fn trace_without_match_never_ends() {
    let attempts = vec![
        Attempt { success: true, stdout: b"hello\n".to_vec() },
        Attempt { success: false, stdout: b"goodbye\n".to_vec() },
    ];
    assert_eq!(first_match(&attempts, b"goodbye"), None);
    assert_eq!(first_match(&Vec::new(), b"anything"), None);
}

#[test]
fn command_keeps_its_text() {
    let command = Command::new(String::from("echo hello"));
    assert_eq!(command.text(), "echo hello");
}
