use vstd::prelude::*;
use crate::popups::ErrorPopup;

verus! {

/// Which tab of the main window is active.
#[derive(Clone, Copy, Debug, PartialEq, Eq)]
pub enum CurrentTab {
    Torrents,
    Search,
}

/// How raw key events are translated: command keys (Normal) or
/// text-editing requests against a focused buffer (Input).
#[derive(Clone, Copy, Debug, PartialEq, Eq)]
pub enum Mode {
    Normal,
    Input,
}

/// A text-editing request against a focused input buffer.
#[derive(Clone, Copy, Debug, PartialEq, Eq)]
pub enum InputRequest {
    InsertChar(char),
    GoToPrevChar,
    GoToNextChar,
    DeletePrevChar,
    DeleteNextChar,
    DeletePrevWord,
}

/// The key codes the session distinguishes, as plain values.
#[derive(Clone, Copy, Debug, PartialEq, Eq)]
pub enum KeyCode {
    Char(char),
    Backspace,
    Delete,
    Enter,
    Esc,
    Up,
    Down,
    Left,
    Right,
}

/// One raw terminal key press with its modifiers, as plain values.
#[derive(Clone, Copy, Debug, PartialEq, Eq)]
pub struct KeyEvent {
    pub code: KeyCode,
    pub alt: bool,
    pub ctrl: bool,
}

/// The single message type of the session: every user or system intent
/// flows through the dispatch pipeline as one of these, carrying all the
/// data any consumer needs.
#[derive(Clone, Debug, PartialEq)]
pub enum Action {
    Quit,
    Render,
    Up,
    Down,
    Confirm,
    ShowHelp,
    ShowStats,
    SwitchToInputMode,
    SwitchToNormalMode,
    ChangeTab(CurrentTab),
    TorrentAdd(String),
    Input(InputRequest),
    Error(ErrorPopup),
}

impl Action {
    /// True exactly for the redraw request.
    pub fn is_render(&self) -> (r: bool)
        ensures
            r == (*self is Render),
    {
        match self {
            Action::Render => true,
            _ => false,
        }
    }
}

/// The text-editing request a key press stands for, if any: backspace
/// with alt alone held deletes the previous word, backspace under any
/// other modifier set the previous character, delete the next character,
/// and a printable character is inserted.
pub open spec fn to_input_request_spec(key_event: KeyEvent) -> Option<InputRequest> {
    match key_event.code {
        KeyCode::Backspace => if key_event.alt && !key_event.ctrl {
            Some(InputRequest::DeletePrevWord)
        } else {
            Some(InputRequest::DeletePrevChar)
        },
        KeyCode::Delete => Some(InputRequest::DeleteNextChar),
        KeyCode::Char(c) => Some(InputRequest::InsertChar(c)),
        _ => None,
    }
}

/// Translates one key press into a text-editing request, for Input mode.
pub fn to_input_request(key_event: KeyEvent) -> (r: Option<InputRequest>)
    ensures
        r == to_input_request_spec(key_event),
{
    match key_event.code {
        KeyCode::Backspace => if key_event.alt && !key_event.ctrl {
            Some(InputRequest::DeletePrevWord)
        } else {
            Some(InputRequest::DeletePrevChar)
        },
        KeyCode::Delete => Some(InputRequest::DeleteNextChar),
        KeyCode::Char(c) => Some(InputRequest::InsertChar(c)),
        _ => None,
    }
}

/// The action a key press stands for under the given mode.  In Normal
/// mode keys map to navigation and command actions; in Input mode Esc
/// leaves the mode, Enter confirms, and the rest become text-editing
/// requests.  Ctrl-c always quits.
pub open spec fn event_to_action_spec(mode: Mode, ev: KeyEvent) -> Option<Action> {
    if ev.ctrl && ev.code == KeyCode::Char('c') {
        Some(Action::Quit)
    } else {
        match mode {
            Mode::Normal => match ev.code {
                KeyCode::Char(c) => if c == 'q' {
                    Some(Action::Quit)
                } else if c == 'j' {
                    Some(Action::Down)
                } else if c == 'k' {
                    Some(Action::Up)
                } else if c == 's' {
                    Some(Action::ShowStats)
                } else if c == '?' {
                    Some(Action::ShowHelp)
                } else if c == '/' {
                    Some(Action::SwitchToInputMode)
                } else if c == '1' {
                    Some(Action::ChangeTab(CurrentTab::Torrents))
                } else if c == '2' {
                    Some(Action::ChangeTab(CurrentTab::Search))
                } else {
                    None
                },
                KeyCode::Down => Some(Action::Down),
                KeyCode::Up => Some(Action::Up),
                KeyCode::Enter => Some(Action::Confirm),
                _ => None,
            },
            Mode::Input => match ev.code {
                KeyCode::Esc => Some(Action::SwitchToNormalMode),
                KeyCode::Enter => Some(Action::Confirm),
                KeyCode::Left => Some(Action::Input(InputRequest::GoToPrevChar)),
                KeyCode::Right => Some(Action::Input(InputRequest::GoToNextChar)),
                _ => match to_input_request_spec(ev) {
                    Some(req) => Some(Action::Input(req)),
                    None => None,
                },
            },
        }
    }
}

/// Translates one raw key press into an action, per the current mode.
pub fn event_to_action(mode: Mode, ev: KeyEvent) -> (r: Option<Action>)
    ensures
        r == event_to_action_spec(mode, ev),
{
    let ctrl_c = ev.ctrl && (match ev.code {
        KeyCode::Char(c) => c == 'c',
        _ => false,
    });
    if ctrl_c {
        return Some(Action::Quit);
    }
    match mode {
        Mode::Normal => match ev.code {
            KeyCode::Char(c) => if c == 'q' {
                Some(Action::Quit)
            } else if c == 'j' {
                Some(Action::Down)
            } else if c == 'k' {
                Some(Action::Up)
            } else if c == 's' {
                Some(Action::ShowStats)
            } else if c == '?' {
                Some(Action::ShowHelp)
            } else if c == '/' {
                Some(Action::SwitchToInputMode)
            } else if c == '1' {
                Some(Action::ChangeTab(CurrentTab::Torrents))
            } else if c == '2' {
                Some(Action::ChangeTab(CurrentTab::Search))
            } else {
                None
            },
            KeyCode::Down => Some(Action::Down),
            KeyCode::Up => Some(Action::Up),
            KeyCode::Enter => Some(Action::Confirm),
            _ => None,
        },
        Mode::Input => match ev.code {
            KeyCode::Esc => Some(Action::SwitchToNormalMode),
            KeyCode::Enter => Some(Action::Confirm),
            KeyCode::Left => Some(Action::Input(InputRequest::GoToPrevChar)),
            KeyCode::Right => Some(Action::Input(InputRequest::GoToNextChar)),
            _ => match to_input_request(ev) {
                Some(req) => Some(Action::Input(req)),
                None => None,
            },
        },
    }
}

} // verus!
