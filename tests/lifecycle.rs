use ad4m_launcher::lifecycle::{Controller, LifecycleState, Message, TrayCommand, UiAction};
use ad4m_launcher::readiness::{OutputEvent, READY_SENTINEL};

fn noise(s: &str) -> Message {
    Message::Output(OutputEvent::Stdout(s.to_string()))
}

fn ready() -> Message {
    Message::Output(OutputEvent::Stdout(READY_SENTINEL.to_string()))
}

fn terminated() -> Message {
    Message::Output(OutputEvent::Terminated(Some(1)))
}

fn quit() -> Message {
    Message::Tray(TrayCommand::Quit, false)
}

fn revealed_at(port: u16) -> UiAction {
    UiAction::RevealMain { url: format!("http://localhost:{}", port) }
}

#[test]
fn new_controller_is_starting() {
    let c = Controller::new(12000);
    assert_eq!(c.state(), LifecycleState::Starting);
    assert_eq!(c.port(), 12000);
}

#[test]
fn ready_after_third_event_only_once() {
    let mut c = Controller::new(12000);
    let acts = c.handle_all(&vec![noise("a"), noise("b"), ready(), noise("c")]);
    assert_eq!(acts, vec![UiAction::NoAction, UiAction::NoAction, revealed_at(12000), UiAction::NoAction]);
    assert_eq!(c.state(), LifecycleState::Ready);
}

#[test]
fn state_changes_exactly_at_ready() {
    let mut c = Controller::new(12000);
    assert_eq!(c.handle(&noise("a")), UiAction::NoAction);
    assert_eq!(c.state(), LifecycleState::Starting);
    assert_eq!(c.handle(&noise("b")), UiAction::NoAction);
    assert_eq!(c.state(), LifecycleState::Starting);
    assert_eq!(c.handle(&ready()), revealed_at(12000));
    assert_eq!(c.state(), LifecycleState::Ready);
    assert_eq!(c.handle(&noise("c")), UiAction::NoAction);
    assert_eq!(c.state(), LifecycleState::Ready);
}

#[test]
fn second_ready_line_does_not_recreate_window() {
    let mut c = Controller::new(12000);
    let acts = c.handle_all(&vec![ready(), ready()]);
    assert_eq!(acts, vec![revealed_at(12000), UiAction::NoAction]);
}

#[test]
fn terminated_before_ready_fails_without_window() {
    let mut c = Controller::new(12000);
    let acts = c.handle_all(&vec![noise("a"), Message::Output(OutputEvent::Stderr(READY_SENTINEL.to_string())), terminated()]);
    assert_eq!(acts, vec![UiAction::NoAction, UiAction::NoAction, UiAction::ShowFailure]);
    assert_eq!(c.state(), LifecycleState::Failed);
}

#[test]
fn terminated_after_ready_shows_failure() {
    let mut c = Controller::new(12000);
    let acts = c.handle_all(&vec![ready(), noise("x"), terminated()]);
    assert_eq!(acts, vec![revealed_at(12000), UiAction::NoAction, UiAction::ShowFailure]);
    assert_eq!(c.state(), LifecycleState::Failed);
}

#[test]
fn failed_is_terminal_for_output() {
    let mut c = Controller::new(12000);
    let acts = c.handle_all(&vec![terminated(), ready(), terminated()]);
    assert_eq!(acts, vec![UiAction::ShowFailure, UiAction::NoAction, UiAction::NoAction]);
    assert_eq!(c.state(), LifecycleState::Failed);
}

#[test]
fn stream_errors_are_noise() {
    let mut c = Controller::new(12000);
    assert_eq!(c.handle(&Message::Output(OutputEvent::Error("broken pipe".to_string()))), UiAction::NoAction);
    assert_eq!(c.state(), LifecycleState::Starting);
}

#[test]
fn copy_url_with_port_12345() {
    let mut c = Controller::new(12345);
    let a = c.handle_tray(TrayCommand::CopyUrl, false);
    assert_eq!(a, UiAction::CopyToClipboard { text: "http://localhost:12345".to_string() });
    assert_eq!(c.state(), LifecycleState::Starting);
}

#[test]
fn show_focuses_existing_window() {
    let mut c = Controller::new(12000);
    c.handle(&ready());
    assert_eq!(c.handle_tray(TrayCommand::Show, true), UiAction::FocusMain);
}

#[test]
fn show_creates_missing_window() {
    let mut c = Controller::new(12001);
    assert_eq!(
        c.handle_tray(TrayCommand::Show, false),
        UiAction::CreateMain { url: "http://localhost:12001".to_string() }
    );
}

#[test]
fn open_logs_and_report_issue() {
    let mut c = Controller::new(12000);
    assert_eq!(c.handle_tray(TrayCommand::OpenLogs, false), UiAction::OpenLogs);
    assert_eq!(
        c.handle_tray(TrayCommand::ReportIssue, false),
        UiAction::OpenUrl { url: "https://github.com/perspect3vism/ad4min/issues/new".to_string() }
    );
    assert_eq!(c.state(), LifecycleState::Starting);
}

fn quit_from(prefix: Vec<Message>, expected: LifecycleState) {
    let mut c = Controller::new(12000);
    c.handle_all(&prefix);
    assert_eq!(c.state(), expected);
    let acts = c.handle_all(&vec![quit(), ready(), terminated(), quit(), Message::Tray(TrayCommand::Show, false)]);
    assert_eq!(acts.iter().filter(|a| **a == UiAction::Exit).count(), 1);
    assert_eq!(acts[0], UiAction::Exit);
    assert!(acts[1..].iter().all(|a| *a == UiAction::NoAction));
    assert_eq!(c.state(), LifecycleState::ShuttingDown);
}

#[test]
fn quit_while_starting() {
    quit_from(vec![], LifecycleState::Starting);
}

#[test]
fn quit_while_ready() {
    quit_from(vec![ready()], LifecycleState::Ready);
}

#[test]
fn quit_while_failed() {
    quit_from(vec![terminated()], LifecycleState::Failed);
}

#[test]
fn quit_while_shutting_down_requests_nothing_more() {
    let mut c = Controller::new(12000);
    assert_eq!(c.handle(&quit()), UiAction::Exit);
    assert_eq!(c.handle(&quit()), UiAction::NoAction);
    assert_eq!(c.state(), LifecycleState::ShuttingDown);
}
