//! The modal input model: the keys and events the editor reacts to, the
//! editing actions they resolve to, and the lookup tables of the two modes,
//! stated once as spec functions that the handlers are proved against.

use vstd::prelude::*;

verus! {

/// A logical key, as the terminal reports it.
#[derive(Clone, Copy, Debug, PartialEq, Eq, Structural)]
pub enum Key {
    Char(char),
    Up,
    Down,
    Left,
    Right,
    Home,
    End,
    Esc,
    Backspace,
    Enter,
    Other,
}

/// A key press: the key together with whether the control modifier (alone)
/// was held.
#[derive(Clone, Copy, Debug, PartialEq, Eq, Structural)]
pub struct KeyPress {
    pub key: Key,
    pub ctrl: bool,
}

/// One discrete input event: a key press, a screen resize to a new width and
/// height, or anything else (which the editor ignores).
#[derive(Clone, Copy, Debug, PartialEq, Eq, Structural)]
pub enum Event {
    Key(KeyPress),
    Resize(u16, u16),
    Other,
}

/// The editor's mode: Normal interprets keys as commands, Insert as text.
#[derive(Clone, Copy, Debug, PartialEq, Eq, Structural)]
pub enum Mode {
    Normal,
    Insert,
}

/// A resolved editing action; each input event yields at most one.
#[derive(Clone, Copy, Debug, PartialEq, Eq, Structural)]
pub enum Action {
    Quit,
    Save,
    MoveUp,
    MoveDown,
    MoveLeft,
    MoveRight,
    MoveToLineEnd,
    MoveToLineStart,
    PageUp,
    PageDown,
    InsertCharAtCursorPos(char),
    DeleteCharAtCursorPos,
    DeleteCurrentLine,
    SetWaitingCad(char),
    NewLine,
    EnterMode(Mode),
}

/// What the surrounding event loop must do after an action is applied:
/// carry on, stop, or write the buffer out.
#[derive(Clone, Copy, Debug, PartialEq, Eq, Structural)]
pub enum Effect {
    Continue,
    Quit,
    Save,
}

/// The Normal-mode key table. Control only matters for the page movements
/// and save; every unlisted key resolves to nothing.
pub open spec fn spec_normal_action(k: Key, ctrl: bool) -> Option<Action> {
    match k {
        Key::Char(c) => if c == 'q' {
            Some(Action::Quit)
        } else if c == 'k' {
            Some(Action::MoveUp)
        } else if c == 'j' {
            Some(Action::MoveDown)
        } else if c == 'h' {
            Some(Action::MoveLeft)
        } else if c == 'l' {
            Some(Action::MoveRight)
        } else if c == 'i' {
            Some(Action::EnterMode(Mode::Insert))
        } else if c == '0' {
            Some(Action::MoveToLineStart)
        } else if c == '$' {
            Some(Action::MoveToLineEnd)
        } else if c == 'b' && ctrl {
            Some(Action::PageUp)
        } else if c == 'f' && ctrl {
            Some(Action::PageDown)
        } else if c == 's' && ctrl {
            Some(Action::Save)
        } else if c == 'd' {
            Some(Action::SetWaitingCad('d'))
        } else {
            None
        },
        Key::Up => Some(Action::MoveUp),
        Key::Down => Some(Action::MoveDown),
        Key::Left => Some(Action::MoveLeft),
        Key::Right => Some(Action::MoveRight),
        Key::Home => Some(Action::MoveToLineStart),
        Key::End => Some(Action::MoveToLineEnd),
        _ => None,
    }
}

/// Normal-mode resolution of a whole event: only key presses can act.
pub open spec fn spec_normal_event_action(ev: Event) -> Option<Action> {
    match ev {
        Event::Key(kp) => spec_normal_action(kp.key, kp.ctrl),
        _ => None,
    }
}

/// Resolution of the event that follows a pending command prefix. Only the
/// `'d'` prefix is known: a second `'d'` deletes the current line, Escape
/// falls back to Normal mode, anything else aborts silently.
pub open spec fn spec_waiting_action(cmd: char, ev: Event) -> Option<Action> {
    if cmd == 'd' {
        match ev {
            Event::Key(kp) => match kp.key {
                Key::Char(c) => if c == 'd' {
                    Some(Action::DeleteCurrentLine)
                } else {
                    None
                },
                Key::Esc => Some(Action::EnterMode(Mode::Normal)),
                _ => None,
            },
            _ => None,
        }
    } else {
        None
    }
}

/// The Insert-mode table: Escape leaves the mode, a printable character is
/// inserted, Backspace deletes before the cursor, Enter starts a new line.
pub open spec fn spec_insert_action(ev: Event) -> Option<Action> {
    match ev {
        Event::Key(kp) => match kp.key {
            Key::Esc => Some(Action::EnterMode(Mode::Normal)),
            Key::Char(c) => Some(Action::InsertCharAtCursorPos(c)),
            Key::Backspace => Some(Action::DeleteCharAtCursorPos),
            Key::Enter => Some(Action::NewLine),
            _ => None,
        },
        _ => None,
    }
}

} // verus!
