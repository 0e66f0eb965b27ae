use vstd::prelude::*;
use vstd::string::StringExecFns;
use crate::readiness::{OutputEvent, Signal, classify_event, event_signal};
use crate::url::{ISSUE_TRACKER_URL, executor_url, executor_url_spec};

verus! {

/// Where the executor stands, as far as the launcher is concerned.
#[derive(Debug, Clone, Copy, PartialEq, Eq, Structural)]
pub enum LifecycleState {
    /// Spawned, not yet reported ready.
    Starting,
    /// The readiness sentinel was seen.
    Ready,
    /// The executor terminated; terminal for this run.
    Failed,
    /// The user asked to quit; terminal.
    ShuttingDown,
}

/// The commands of the tray menu.
#[derive(Debug, Clone, Copy, PartialEq, Eq, Structural)]
pub enum TrayCommand {
    Show,
    CopyUrl,
    OpenLogs,
    ReportIssue,
    Quit,
}

/// What the UI shell is asked to do after one message.
#[derive(Debug, Clone, PartialEq, Eq)]
pub enum UiAction {
    /// Nothing.
    NoAction,
    /// Hide the splash surface, create the main window at `url`, and emit the
    /// "ready" notification.
    RevealMain { url: String },
    /// Show the failure dialog that points at the logs; do not exit.
    ShowFailure,
    /// Bring the existing main window to front and focus it.
    FocusMain,
    /// Create the main window at `url`.
    CreateMain { url: String },
    /// Put `text` on the clipboard.
    CopyToClipboard { text: String },
    /// Reveal the log directory in the file browser.
    OpenLogs,
    /// Open `url` in the default browser.
    OpenUrl { url: String },
    /// Request application exit.
    Exit,
}

/// The mathematical value of a [`UiAction`].
pub enum UiActionView {
    NoAction,
    RevealMain { url: Seq<char> },
    ShowFailure,
    FocusMain,
    CreateMain { url: Seq<char> },
    CopyToClipboard { text: Seq<char> },
    OpenLogs,
    OpenUrl { url: Seq<char> },
    Exit,
}

impl View for UiAction {
    type V = UiActionView;

    open spec fn view(&self) -> UiActionView {
        match self {
            UiAction::NoAction => UiActionView::NoAction,
            UiAction::RevealMain { url } => UiActionView::RevealMain { url: url@ },
            UiAction::ShowFailure => UiActionView::ShowFailure,
            UiAction::FocusMain => UiActionView::FocusMain,
            UiAction::CreateMain { url } => UiActionView::CreateMain { url: url@ },
            UiAction::CopyToClipboard { text } => UiActionView::CopyToClipboard { text: text@ },
            UiAction::OpenLogs => UiActionView::OpenLogs,
            UiAction::OpenUrl { url } => UiActionView::OpenUrl { url: url@ },
            UiAction::Exit => UiActionView::Exit,
        }
    }
}

/// One message to the controller: an output event of the executor, or a tray
/// command together with whether the main window exists at that moment.
#[derive(Debug, Clone, PartialEq, Eq)]
pub enum Message {
    Output(OutputEvent),
    Tray(TrayCommand, bool),
}

/// The effect of one output event in state `s`: the next state and the action.
pub open spec fn output_step(s: LifecycleState, port: u16, ev: OutputEvent) -> (LifecycleState, UiActionView) {
    match s {
        LifecycleState::Failed | LifecycleState::ShuttingDown => (s, UiActionView::NoAction),
        _ => match ev {
            OutputEvent::Terminated(_) => (LifecycleState::Failed, UiActionView::ShowFailure),
            _ => if s == LifecycleState::Starting && event_signal(ev) == Signal::Ready {
                (LifecycleState::Ready, UiActionView::RevealMain { url: executor_url_spec(port) })
            } else {
                (s, UiActionView::NoAction)
            },
        },
    }
}

/// The effect of one tray command in state `s`. Tray commands leave the
/// lifecycle alone but for `Quit`; after quitting nothing is processed.
pub open spec fn tray_step(s: LifecycleState, port: u16, cmd: TrayCommand, main_exists: bool) -> (LifecycleState, UiActionView) {
    if s == LifecycleState::ShuttingDown {
        (s, UiActionView::NoAction)
    } else {
        match cmd {
            TrayCommand::Show => (s, if main_exists {
                UiActionView::FocusMain
            } else {
                UiActionView::CreateMain { url: executor_url_spec(port) }
            }),
            TrayCommand::CopyUrl => (s, UiActionView::CopyToClipboard { text: executor_url_spec(port) }),
            TrayCommand::OpenLogs => (s, UiActionView::OpenLogs),
            TrayCommand::ReportIssue => (s, UiActionView::OpenUrl { url: ISSUE_TRACKER_URL@ }),
            TrayCommand::Quit => (LifecycleState::ShuttingDown, UiActionView::Exit),
        }
    }
}

/// The effect of one message.
pub open spec fn step(s: LifecycleState, port: u16, m: Message) -> (LifecycleState, UiActionView) {
    match m {
        Message::Output(ev) => output_step(s, port, ev),
        Message::Tray(cmd, main_exists) => tray_step(s, port, cmd, main_exists),
    }
}

/// The state reached and the actions taken when `msgs` are handled in order from `s`.
pub open spec fn run(s: LifecycleState, port: u16, msgs: Seq<Message>) -> (LifecycleState, Seq<UiActionView>)
    decreases msgs.len(),
{
    if msgs.len() == 0 {
        (s, Seq::empty())
    } else {
        let (s1, a) = step(s, port, msgs[0]);
        let (sf, rest) = run(s1, port, msgs.drop_first());
        (sf, seq![a] + rest)
    }
}

/// The views of a sequence of actions.
pub open spec fn action_views(acts: Seq<UiAction>) -> Seq<UiActionView> {
    acts.map_values(|a: UiAction| a@)
}

/// The lifecycle controller: the single owner of the lifecycle state and of
/// the allocated port.
pub struct Controller {
    state: LifecycleState,
    port: u16,
}

/// The mathematical value of a [`Controller`].
pub struct ControllerView {
    pub state: LifecycleState,
    pub port: u16,
}

impl View for Controller {
    type V = ControllerView;

    closed spec fn view(&self) -> ControllerView {
        ControllerView { state: self.state, port: self.port }
    }
}

impl Controller {
    /// A controller for an executor spawned on `port`, in state `Starting`.
    pub fn new(port: u16) -> (r: Controller)
        ensures
            r@.state == LifecycleState::Starting,
            r@.port == port,
    {
        Controller { state: LifecycleState::Starting, port }
    }

    /// The current lifecycle state.
    pub fn state(&self) -> (r: LifecycleState)
        ensures
            r == self@.state,
    {
        self.state
    }

    /// The allocated port.
    pub fn port(&self) -> (r: u16)
        ensures
            r == self@.port,
    {
        self.port
    }

    /// Reacts to one event of the executor's output stream.
    pub fn handle_output(&mut self, ev: &OutputEvent) -> (a: UiAction)
        ensures
            final(self)@.port == old(self)@.port,
            (final(self)@.state, a@) == output_step(old(self)@.state, old(self)@.port, *ev),
    {
        match self.state {
            LifecycleState::Failed | LifecycleState::ShuttingDown => UiAction::NoAction,
            _ => match ev {
                OutputEvent::Terminated(_) => {
                    self.state = LifecycleState::Failed;
                    UiAction::ShowFailure
                },
                _ => {
                    let sig = classify_event(ev);
                    if self.state == LifecycleState::Starting && sig == Signal::Ready {
                        self.state = LifecycleState::Ready;
                        UiAction::RevealMain { url: executor_url(self.port) }
                    } else {
                        UiAction::NoAction
                    }
                },
            },
        }
    }

    /// Reacts to a tray command; `main_exists` tells whether the main window
    /// exists now.
    pub fn handle_tray(&mut self, cmd: TrayCommand, main_exists: bool) -> (a: UiAction)
        ensures
            final(self)@.port == old(self)@.port,
            (final(self)@.state, a@) == tray_step(old(self)@.state, old(self)@.port, cmd, main_exists),
    {
        if self.state == LifecycleState::ShuttingDown {
            return UiAction::NoAction;
        }
        match cmd {
            TrayCommand::Show => {
                if main_exists {
                    UiAction::FocusMain
                } else {
                    UiAction::CreateMain { url: executor_url(self.port) }
                }
            },
            TrayCommand::CopyUrl => UiAction::CopyToClipboard { text: executor_url(self.port) },
            TrayCommand::OpenLogs => UiAction::OpenLogs,
            TrayCommand::ReportIssue => UiAction::OpenUrl { url: String::from_str(ISSUE_TRACKER_URL) },
            TrayCommand::Quit => {
                self.state = LifecycleState::ShuttingDown;
                UiAction::Exit
            },
        }
    }

    /// Reacts to one message.
    pub fn handle(&mut self, m: &Message) -> (a: UiAction)
        ensures
            final(self)@.port == old(self)@.port,
            (final(self)@.state, a@) == step(old(self)@.state, old(self)@.port, *m),
    {
        match m {
            Message::Output(ev) => self.handle_output(ev),
            Message::Tray(cmd, main_exists) => self.handle_tray(*cmd, *main_exists),
        }
    }

    /// Handles `msgs` in order and returns the actions taken, one per message.
    pub fn handle_all(&mut self, msgs: &Vec<Message>) -> (acts: Vec<UiAction>)
        ensures
            final(self)@.port == old(self)@.port,
            (final(self)@.state, action_views(acts@)) == run(old(self)@.state, old(self)@.port, msgs@),
    {
        let mut acts: Vec<UiAction> = Vec::new();
        let mut i: usize = 0;
        proof {
            let rest = run(self@.state, self@.port, msgs@).1;
            assert(msgs@.subrange(0, msgs@.len() as int) =~= msgs@);
            assert(action_views(acts@) + rest =~= rest);
        }
        while i < msgs.len()
            invariant
                i <= msgs@.len(),
                self@.port == old(self)@.port,
                run(old(self)@.state, old(self)@.port, msgs@) == ({
                    let (sf, rest) = run(self@.state, self@.port, msgs@.subrange(i as int, msgs@.len() as int));
                    (sf, action_views(acts@) + rest)
                }),
            decreases msgs@.len() - i,
        {
            let a = self.handle(&msgs[i]);
            proof {
                let tail = msgs@.subrange(i as int, msgs@.len() as int);
                assert(tail.drop_first() =~= msgs@.subrange(i + 1, msgs@.len() as int));
                assert(action_views(acts@.push(a)) =~= action_views(acts@) + seq![a@]);
            }
            acts.push(a);
            i = i + 1;
        }
        proof {
            assert(msgs@.subrange(i as int, msgs@.len() as int) =~= Seq::<Message>::empty());
        }
        acts
    }
}

} // verus!
