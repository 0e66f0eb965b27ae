use vstd::prelude::*;
use crate::readiness::{OutputEvent, Signal, event_signal};
use crate::lifecycle::{LifecycleState, Message, TrayCommand, UiActionView, output_step, run, step};
use crate::url::executor_url_spec;

verus! {

/// `m` is an output event that does not signal readiness.
pub open spec fn is_noise_output(m: Message) -> bool {
    match m {
        Message::Output(ev) => event_signal(ev) == Signal::Noise,
        _ => false,
    }
}

/// `m` reports that the executor terminated.
pub open spec fn is_termination(m: Message) -> bool {
    match m {
        Message::Output(OutputEvent::Terminated(_)) => true,
        _ => false,
    }
}

/// An action that shows the main window in some way.
pub open spec fn shows_window(a: UiActionView) -> bool {
    a is RevealMain || a is FocusMain || a is CreateMain
}

/// A run takes one action per message.
pub proof fn lemma_run_len(s: LifecycleState, port: u16, msgs: Seq<Message>)
    ensures
        run(s, port, msgs).1.len() == msgs.len(),
    decreases msgs.len(),
{
    if msgs.len() > 0 {
        lemma_run_len(step(s, port, msgs[0]).0, port, msgs.drop_first());
    }
}

/// The actions of a run: the first message's, then those of the rest.
proof fn lemma_run_unfold(s: LifecycleState, port: u16, msgs: Seq<Message>, i: int)
    requires
        0 < i < msgs.len(),
    ensures
        run(s, port, msgs).1[i] == run(step(s, port, msgs[0]).0, port, msgs.drop_first()).1[i - 1],
        run(s, port, msgs).1[0] == step(s, port, msgs[0]).1,
{
    lemma_run_len(step(s, port, msgs[0]).0, port, msgs.drop_first());
}

/// Once out of `Starting`, a run never reveals the main window again.
pub proof fn lemma_no_reveal_after_start(s: LifecycleState, port: u16, msgs: Seq<Message>)
    requires
        s != LifecycleState::Starting,
    ensures
        forall|i: int| 0 <= i < msgs.len() ==> !(#[trigger] run(s, port, msgs).1[i] is RevealMain),
        run(s, port, msgs).0 != LifecycleState::Starting,
    decreases msgs.len(),
{
    lemma_run_len(s, port, msgs);
    if msgs.len() > 0 {
        let s1 = step(s, port, msgs[0]).0;
        lemma_no_reveal_after_start(s1, port, msgs.drop_first());
        assert forall|i: int| 0 <= i < msgs.len() implies !(#[trigger] run(s, port, msgs).1[i] is RevealMain) by {
            if i > 0 {
                lemma_run_unfold(s, port, msgs, i);
            }
        }
    }
}

/// Whatever messages arrive, the main window is revealed for readiness at
/// most once.
pub proof fn lemma_ready_revealed_at_most_once(s: LifecycleState, port: u16, msgs: Seq<Message>)
    ensures
        forall|i: int, j: int|
            0 <= i < j < msgs.len() ==> !(#[trigger] run(s, port, msgs).1[i] is RevealMain
                && #[trigger] run(s, port, msgs).1[j] is RevealMain),
    decreases msgs.len(),
{
    lemma_run_len(s, port, msgs);
    if msgs.len() > 0 {
        let (s1, a) = step(s, port, msgs[0]);
        let tail = msgs.drop_first();
        lemma_ready_revealed_at_most_once(s1, port, tail);
        if a is RevealMain {
            lemma_no_reveal_after_start(s1, port, tail);
        }
        assert forall|i: int, j: int| 0 <= i < j < msgs.len() implies !(#[trigger] run(s, port, msgs).1[i] is RevealMain
            && #[trigger] run(s, port, msgs).1[j] is RevealMain) by {
            lemma_run_unfold(s, port, msgs, j);
            if i > 0 {
                lemma_run_unfold(s, port, msgs, i);
            }
        }
    }
}

/// After shutting down, every message is ignored.
pub proof fn lemma_shutdown_is_final(port: u16, msgs: Seq<Message>)
    ensures
        run(LifecycleState::ShuttingDown, port, msgs).0 == LifecycleState::ShuttingDown,
        forall|i: int| 0 <= i < msgs.len() ==> #[trigger] run(LifecycleState::ShuttingDown, port, msgs).1[i] is NoAction,
    decreases msgs.len(),
{
    let s = LifecycleState::ShuttingDown;
    lemma_run_len(s, port, msgs);
    if msgs.len() > 0 {
        lemma_shutdown_is_final(port, msgs.drop_first());
        assert forall|i: int| 0 <= i < msgs.len() implies #[trigger] run(s, port, msgs).1[i] is NoAction by {
            if i > 0 {
                lemma_run_unfold(s, port, msgs, i);
            }
        }
    }
}

/// Quitting in any state but `ShuttingDown` requests exit at once, and
/// nothing that follows is acted upon or changes the state.
pub proof fn lemma_quit_exits_once(s: LifecycleState, port: u16, main_exists: bool, msgs: Seq<Message>)
    requires
        s != LifecycleState::ShuttingDown,
    ensures
        ({
            let r = run(s, port, seq![Message::Tray(TrayCommand::Quit, main_exists)] + msgs);
            &&& r.0 == LifecycleState::ShuttingDown
            &&& r.1.len() == msgs.len() + 1
            &&& r.1[0] is Exit
            &&& forall|i: int| 1 <= i <= msgs.len() ==> #[trigger] r.1[i] is NoAction
        }),
{
    let all = seq![Message::Tray(TrayCommand::Quit, main_exists)] + msgs;
    assert(all.drop_first() =~= msgs);
    lemma_run_len(s, port, all);
    lemma_shutdown_is_final(port, msgs);
    assert forall|i: int| 1 <= i <= msgs.len() implies #[trigger] run(s, port, all).1[i] is NoAction by {
        lemma_run_unfold(s, port, all, i);
    }
}

/// Whatever messages arrive, exit is requested at most once.
pub proof fn lemma_exit_at_most_once(s: LifecycleState, port: u16, msgs: Seq<Message>)
    ensures
        forall|i: int, j: int|
            0 <= i < j < msgs.len() ==> !(#[trigger] run(s, port, msgs).1[i] is Exit
                && #[trigger] run(s, port, msgs).1[j] is Exit),
    decreases msgs.len(),
{
    lemma_run_len(s, port, msgs);
    if msgs.len() > 0 {
        let (s1, a) = step(s, port, msgs[0]);
        let tail = msgs.drop_first();
        lemma_exit_at_most_once(s1, port, tail);
        if a is Exit {
            lemma_shutdown_is_final(port, tail);
        }
        assert forall|i: int, j: int| 0 <= i < j < msgs.len() implies !(#[trigger] run(s, port, msgs).1[i] is Exit
            && #[trigger] run(s, port, msgs).1[j] is Exit) by {
            lemma_run_unfold(s, port, msgs, j);
            if i > 0 {
                lemma_run_unfold(s, port, msgs, i);
            }
        }
    }
}

/// An output stream without the readiness signal, from `Starting` or
/// `Failed`, never shows a window and never reaches `Ready`; if it ends in a
/// termination, the run ends in `Failed`.
pub proof fn lemma_noise_then_terminated_fails(s: LifecycleState, port: u16, msgs: Seq<Message>)
    requires
        s == LifecycleState::Starting || s == LifecycleState::Failed,
        forall|i: int| 0 <= i < msgs.len() ==> is_noise_output(#[trigger] msgs[i]),
    ensures
        run(s, port, msgs).0 == LifecycleState::Starting || run(s, port, msgs).0 == LifecycleState::Failed,
        msgs.len() > 0 && is_termination(msgs.last()) ==> run(s, port, msgs).0 == LifecycleState::Failed,
        forall|i: int| 0 <= i < msgs.len() ==> !shows_window(#[trigger] run(s, port, msgs).1[i]),
    decreases msgs.len(),
{
    lemma_run_len(s, port, msgs);
    if msgs.len() > 0 {
        let s1 = step(s, port, msgs[0]).0;
        let tail = msgs.drop_first();
        assert(is_noise_output(msgs[0]));
        assert forall|i: int| 0 <= i < tail.len() implies is_noise_output(#[trigger] tail[i]) by {
            assert(tail[i] == msgs[i + 1]);
        }
        lemma_noise_then_terminated_fails(s1, port, tail);
        if tail.len() > 0 {
            assert(tail.last() == msgs.last());
        }
        assert forall|i: int| 0 <= i < msgs.len() implies !shows_window(#[trigger] run(s, port, msgs).1[i]) by {
            if i > 0 {
                lemma_run_unfold(s, port, msgs, i);
            }
        }
    }
}

/// The executor terminating after it was ready fails the run and shows the
/// failure dialog, though the main window was already created.
pub proof fn lemma_terminated_after_ready(port: u16, code: Option<i32>)
    ensures
        output_step(LifecycleState::Ready, port, OutputEvent::Terminated(code))
            == (LifecycleState::Failed, UiActionView::ShowFailure),
{
}

/// The readiness signal while starting reveals the main window at the
/// executor's URL and makes the lifecycle `Ready`.
pub proof fn lemma_ready_signal_reveals(port: u16, ev: OutputEvent)
    requires
        event_signal(ev) == Signal::Ready,
    ensures
        output_step(LifecycleState::Starting, port, ev)
            == (LifecycleState::Ready, UiActionView::RevealMain { url: executor_url_spec(port) }),
{
}

} // verus!
