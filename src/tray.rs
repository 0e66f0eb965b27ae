use vstd::prelude::*;
use vstd::string::StringExecFns;
use crate::lifecycle::TrayCommand;

verus! {

/// One entry of the tray menu.
#[derive(Debug, Clone, Copy, PartialEq, Eq, Structural)]
pub enum TrayEntry {
    Item(TrayCommand),
    Separator,
}

/// The tray menu, top to bottom: each command, separators in between.
pub open spec fn tray_menu_spec() -> Seq<TrayEntry> {
    seq![
        TrayEntry::Item(TrayCommand::Show),
        TrayEntry::Separator,
        TrayEntry::Item(TrayCommand::CopyUrl),
        TrayEntry::Separator,
        TrayEntry::Item(TrayCommand::OpenLogs),
        TrayEntry::Separator,
        TrayEntry::Item(TrayCommand::ReportIssue),
        TrayEntry::Separator,
        TrayEntry::Item(TrayCommand::Quit),
    ]
}

/// The entries of the tray menu.
pub fn tray_menu() -> (r: Vec<TrayEntry>)
    ensures
        r@ == tray_menu_spec(),
{
    let r = vec![
        TrayEntry::Item(TrayCommand::Show),
        TrayEntry::Separator,
        TrayEntry::Item(TrayCommand::CopyUrl),
        TrayEntry::Separator,
        TrayEntry::Item(TrayCommand::OpenLogs),
        TrayEntry::Separator,
        TrayEntry::Item(TrayCommand::ReportIssue),
        TrayEntry::Separator,
        TrayEntry::Item(TrayCommand::Quit),
    ];
    proof {
        assert(r@ =~= tray_menu_spec());
    }
    r
}

/// The identifier under which the UI shell reports a click on `cmd`.
pub open spec fn command_id(cmd: TrayCommand) -> Seq<char> {
    match cmd {
        TrayCommand::Show => "show_ad4min"@,
        TrayCommand::CopyUrl => "copy_url"@,
        TrayCommand::OpenLogs => "open_logs"@,
        TrayCommand::ReportIssue => "report_issue"@,
        TrayCommand::Quit => "quit"@,
    }
}

/// The command whose identifier is `id`, if any.
pub open spec fn command_of_id(id: Seq<char>) -> Option<TrayCommand> {
    if id == command_id(TrayCommand::Show) {
        Some(TrayCommand::Show)
    } else if id == command_id(TrayCommand::CopyUrl) {
        Some(TrayCommand::CopyUrl)
    } else if id == command_id(TrayCommand::OpenLogs) {
        Some(TrayCommand::OpenLogs)
    } else if id == command_id(TrayCommand::ReportIssue) {
        Some(TrayCommand::ReportIssue)
    } else if id == command_id(TrayCommand::Quit) {
        Some(TrayCommand::Quit)
    } else {
        None
    }
}

impl TrayCommand {
    /// The menu identifier of this command.
    pub fn id(self) -> (r: &'static str)
        ensures
            r@ == command_id(self),
    {
        match self {
            TrayCommand::Show => "show_ad4min",
            TrayCommand::CopyUrl => "copy_url",
            TrayCommand::OpenLogs => "open_logs",
            TrayCommand::ReportIssue => "report_issue",
            TrayCommand::Quit => "quit",
        }
    }

    /// The command that the menu identifier `id` names; `None` for an
    /// identifier outside the menu.
    pub fn from_id(id: &str) -> (r: Option<TrayCommand>)
        ensures
            r == command_of_id(id@),
    {
        let s = String::from_str(id);
        if s == String::from_str(TrayCommand::Show.id()) {
            Some(TrayCommand::Show)
        } else if s == String::from_str(TrayCommand::CopyUrl.id()) {
            Some(TrayCommand::CopyUrl)
        } else if s == String::from_str(TrayCommand::OpenLogs.id()) {
            Some(TrayCommand::OpenLogs)
        } else if s == String::from_str(TrayCommand::ReportIssue.id()) {
            Some(TrayCommand::ReportIssue)
        } else if s == String::from_str(TrayCommand::Quit.id()) {
            Some(TrayCommand::Quit)
        } else {
            None
        }
    }
}

/// Reading back the identifier of a command gives that command.
pub proof fn lemma_command_id_round_trip(cmd: TrayCommand)
    ensures
        command_of_id(command_id(cmd)) == Some(cmd),
{
    reveal_strlit("show_ad4min");
    reveal_strlit("copy_url");
    reveal_strlit("open_logs");
    reveal_strlit("report_issue");
    reveal_strlit("quit");
    assert(command_id(TrayCommand::Show).len() == 11);
    assert(command_id(TrayCommand::CopyUrl).len() == 8);
    assert(command_id(TrayCommand::OpenLogs).len() == 9);
    assert(command_id(TrayCommand::ReportIssue).len() == 12);
    assert(command_id(TrayCommand::Quit).len() == 4);
}

} // verus!
