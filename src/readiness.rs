use vstd::prelude::*;
use vstd::string::StringExecFns;

verus! {

/// The line that the executor prints on standard output once it has
/// initialised: "AD4M init complete" framed by ANSI green / reset escapes.
/// The escape bytes are part of the match; nothing is stripped first.
pub const READY_SENTINEL: &'static str = "\u{1b}[32m AD4M init complete \u{1b}[0m";

/// How one line of the executor's output bears on its lifecycle.
#[derive(Debug, Clone, Copy, PartialEq, Eq, Structural)]
pub enum Signal {
    Ready,
    Noise,
}

/// One event of the executor's output stream.
#[derive(Debug, Clone, PartialEq, Eq)]
pub enum OutputEvent {
    /// A line of standard output.
    Stdout(String),
    /// A line of standard error.
    Stderr(String),
    /// The process ended; the exit code, where one was reported.
    Terminated(Option<i32>),
    /// The stream could not be read.
    Error(String),
}

/// A line signals readiness exactly when it is the sentinel, character for character.
pub open spec fn classify_spec(line: Seq<char>) -> Signal {
    if line == READY_SENTINEL@ {
        Signal::Ready
    } else {
        Signal::Noise
    }
}

/// Classifies one line of standard output.
pub fn classify(line: &str) -> (r: Signal)
    ensures
        r == classify_spec(line@),
{
    let got = String::from_str(line);
    let want = String::from_str(READY_SENTINEL);
    if got == want {
        Signal::Ready
    } else {
        Signal::Noise
    }
}

/// Readiness can only come from standard output; every other event is noise
/// as far as readiness goes (termination is handled by the controller).
pub open spec fn event_signal(ev: OutputEvent) -> Signal {
    match ev {
        OutputEvent::Stdout(line) => classify_spec(line@),
        _ => Signal::Noise,
    }
}

/// Classifies one event of the output stream.
pub fn classify_event(ev: &OutputEvent) -> (r: Signal)
    ensures
        r == event_signal(*ev),
{
    match ev {
        OutputEvent::Stdout(line) => classify(line.as_str()),
        _ => Signal::Noise,
    }
}

/// Changing any single character of the sentinel gives a line that is noise:
/// the match is exact, not a search for a substring.
pub proof fn lemma_one_char_off_is_noise(i: int, c: char)
    requires
        0 <= i < READY_SENTINEL@.len(),
        c != READY_SENTINEL@[i],
    ensures
        classify_spec(READY_SENTINEL@.update(i, c)) == Signal::Noise,
{
    assert(READY_SENTINEL@.update(i, c)[i] != READY_SENTINEL@[i]);
}

/// A line that merely contains the sentinel, with anything before or after
/// it, is noise.
pub proof fn lemma_framed_sentinel_is_noise(before: Seq<char>, after: Seq<char>)
    requires
        before.len() + after.len() > 0,
    ensures
        classify_spec(before + READY_SENTINEL@ + after) == Signal::Noise,
{
    assert((before + READY_SENTINEL@ + after).len() != READY_SENTINEL@.len());
}

} // verus!
