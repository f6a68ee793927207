//! Poll a shell command until its trimmed standard output exactly matches a
//! target string, then optionally run a finishing command.
//!
//! This crate holds the verified logic of that loop: deriving the retry
//! interval from a configured duration, trimming one trailing newline from
//! captured output, comparing bytes against the target, and deciding on each
//! attempt whether the loop is finished or must retry (and how long to wait).
//! Spawning processes, sleeping, and command-line handling are left to the
//! surrounding program.

mod command;
mod interval;
mod poll;

pub use command::Command;
pub use interval::interval_of;
pub use interval::lemma_zero_duration_no_wait;
pub use interval::wait_of;
pub use interval::Interval;
pub use interval::Span;
pub use poll::attempt_matches;
pub use poll::bytes_eq;
pub use poll::first_match;
pub use poll::is_match;
pub use poll::lemma_failure_never_matches;
pub use poll::lemma_trim_newline_at_most_once;
pub use poll::matches_at;
pub use poll::poll_step;
pub use poll::trim_newline;
pub use poll::trim_newline_spec;
pub use poll::Attempt;
pub use poll::Step;
pub use poll::NEWLINE;
