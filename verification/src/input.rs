//! Keys and the two input modes that decide what a key means.

use crate::view::ViewKind;
use vstd::prelude::*;

verus! {

/// Whether keys navigate or edit the query of the current screen.
#[derive(Clone, Copy, Debug, PartialEq, Eq, Structural)]
pub enum InputMode {
    Normal,
    Query,
}

/// The keys the explorer tells apart.
#[derive(Clone, Copy, Debug, PartialEq, Eq, Structural)]
pub enum Key {
    Char(char),
    Enter,
    Esc,
    Backspace,
    Up,
    Down,
    Other,
}

/// A key together with the state of the control modifier.
#[derive(Clone, Copy, Debug, PartialEq, Eq, Structural)]
pub struct KeyPress {
    pub key: Key,
    pub ctrl: bool,
}

/// What a key asks the session to do.
#[derive(Clone, Copy, Debug, PartialEq, Eq, Structural)]
pub enum Command {
    /// The key means nothing in the current mode.
    Ignore,
    Quit,
    ToggleHelp,
    NextItem,
    PreviousItem,
    /// Drill down into the selected item.
    EnterView,
    GoBack,
    /// Show the screen of the given kind for the selected bank.
    Open(ViewKind),
    Refresh,
    ToggleAutoRefresh,
    /// Begin editing the query of the current screen.
    StartQuery,
    /// Run the query that was edited.
    SubmitQuery,
    /// End editing without running the query.
    CancelQuery,
    TypeChar(char),
    EraseChar,
}

/// What a key means while keys navigate.
pub open spec fn normal_command(key: Key) -> Command {
    match key {
        Key::Char(c) => if c == 'q' {
            Command::Quit
        } else if c == '?' {
            Command::ToggleHelp
        } else if c == 'j' {
            Command::NextItem
        } else if c == 'k' {
            Command::PreviousItem
        } else if c == 'm' {
            Command::Open(ViewKind::Memories)
        } else if c == 'e' {
            Command::Open(ViewKind::Entities)
        } else if c == 'd' {
            Command::Open(ViewKind::Documents)
        } else if c == 'r' {
            Command::Open(ViewKind::Recall)
        } else if c == 't' {
            Command::Open(ViewKind::Reflect)
        } else if c == 'R' {
            Command::Refresh
        } else if c == 'a' {
            Command::ToggleAutoRefresh
        } else if c == '/' {
            Command::StartQuery
        } else {
            Command::Ignore
        },
        Key::Down => Command::NextItem,
        Key::Up => Command::PreviousItem,
        Key::Enter => Command::EnterView,
        Key::Esc => Command::GoBack,
        _ => Command::Ignore,
    }
}

/// What a key means while a query is edited: Enter runs it, Escape ends the
/// editing, characters and backspace edit the text, and nothing else counts.
pub open spec fn query_command(key: Key) -> Command {
    match key {
        Key::Enter => Command::SubmitQuery,
        Key::Esc => Command::CancelQuery,
        Key::Char(c) => Command::TypeChar(c),
        Key::Backspace => Command::EraseChar,
        _ => Command::Ignore,
    }
}

/// What a key means: control-c ends the session in either mode, and every
/// other key goes by the mode.
pub open spec fn command_of(mode: InputMode, press: KeyPress) -> Command {
    if press.ctrl && press.key == Key::Char('c') {
        Command::Quit
    } else {
        match mode {
            InputMode::Normal => normal_command(press.key),
            InputMode::Query => query_command(press.key),
        }
    }
}

impl Command {
    /// Commands that move a cursor, change the screen, reload, or change
    /// what is displayed around the lists.
    pub open spec fn navigates(self) -> bool {
        self is ToggleHelp || self is NextItem || self is PreviousItem || self is EnterView
            || self is GoBack || self is Open || self is Refresh || self is ToggleAutoRefresh
    }

    /// Commands that edit, run or leave a query.
    pub open spec fn edits_query(self) -> bool {
        self is SubmitQuery || self is CancelQuery || self is TypeChar || self is EraseChar
    }
}

impl InputMode {
    /// The command a key stands for in this mode.
    pub fn command(self, press: KeyPress) -> (command: Command)
        ensures
            command == command_of(self, press),
    {
        if press.ctrl && press.key == Key::Char('c') {
            return Command::Quit;
        }
        match self {
            InputMode::Normal => match press.key {
                Key::Char(c) => {
                    if c == 'q' {
                        Command::Quit
                    } else if c == '?' {
                        Command::ToggleHelp
                    } else if c == 'j' {
                        Command::NextItem
                    } else if c == 'k' {
                        Command::PreviousItem
                    } else if c == 'm' {
                        Command::Open(ViewKind::Memories)
                    } else if c == 'e' {
                        Command::Open(ViewKind::Entities)
                    } else if c == 'd' {
                        Command::Open(ViewKind::Documents)
                    } else if c == 'r' {
                        Command::Open(ViewKind::Recall)
                    } else if c == 't' {
                        Command::Open(ViewKind::Reflect)
                    } else if c == 'R' {
                        Command::Refresh
                    } else if c == 'a' {
                        Command::ToggleAutoRefresh
                    } else if c == '/' {
                        Command::StartQuery
                    } else {
                        Command::Ignore
                    }
                },
                Key::Down => Command::NextItem,
                Key::Up => Command::PreviousItem,
                Key::Enter => Command::EnterView,
                Key::Esc => Command::GoBack,
                _ => Command::Ignore,
            },
            InputMode::Query => match press.key {
                Key::Enter => Command::SubmitQuery,
                Key::Esc => Command::CancelQuery,
                Key::Char(c) => Command::TypeChar(c),
                Key::Backspace => Command::EraseChar,
                _ => Command::Ignore,
            },
        }
    }
}

/// The two modes share no command but quitting and ignoring: while a query
/// is edited no key navigates or begins a query, and in normal mode no key
/// edits a query; query entry is asked for by `/` in normal mode alone.
pub proof fn lemma_modes_gate_commands(mode: InputMode, press: KeyPress)
    ensures
        mode is Query ==> !command_of(mode, press).navigates() && !(command_of(mode, press) is StartQuery),
        mode is Normal ==> !command_of(mode, press).edits_query(),
        command_of(mode, press) is StartQuery <==> mode is Normal && press.key == Key::Char('/')
            && !(press.ctrl && press.key == Key::Char('c')),
{
}

} // verus!
