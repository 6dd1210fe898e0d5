use vstd::prelude::*;

use crate::commands::Command;

verus! {

/// A key code, as delivered by the host's input backend. `Other` stands for
/// every key the default keybinding table does not bind (function keys, tab,
/// and so on), and for non-key input events.
#[derive(Debug, Clone, Copy, PartialEq, Eq)]
pub enum Key {
    Backspace,
    Delete,
    Left,
    Right,
    Home,
    End,
    Enter,
    Esc,
    Char(char),
    Other,
}

/// A raw key event: a key code plus whether the control modifier was held.
#[derive(Debug, Clone, Copy, PartialEq, Eq)]
pub struct KeyEvent {
    pub code: Key,
    pub ctrl: bool,
}

/// The default (Emacs-style) keybinding table, as a mathematical function.
/// Enter, Escape and Ctrl-Q are reserved for the host control loop and never
/// become a command; a plain printable character with no control modifier
/// inserts itself; every unbound key — a control chord outside the table
/// included — maps to no command. Because the table is a single total
/// function over `(key, modifier)` pairs, no binding can be duplicated or
/// shadowed by a later entry.
pub open spec fn spec_event_to_command(event: KeyEvent) -> Option<Command> {
    match event.code {
        Key::Esc => None,
        Key::Enter => None,
        Key::Backspace => Some(Command::Backspace),
        Key::Delete => Some(Command::Delete),
        Key::Left => Some(Command::CursorLeft(1)),
        Key::Right => Some(Command::CursorRight(1)),
        Key::Home => Some(Command::CursorToStartOfLine),
        Key::End => Some(Command::CursorToEndOfLine),
        Key::Char(c) => if event.ctrl {
            if c == 'q' {
                None
            } else if c == 'h' {
                Some(Command::Backspace)
            } else if c == 'd' {
                Some(Command::Delete)
            } else if c == 'b' {
                Some(Command::CursorLeft(1))
            } else if c == 'f' {
                Some(Command::CursorRight(1))
            } else if c == 'a' {
                Some(Command::CursorToStartOfLine)
            } else if c == 'e' {
                Some(Command::CursorToEndOfLine)
            } else if c == 'u' {
                Some(Command::DeleteStartOfLineToCursor)
            } else if c == 'k' {
                Some(Command::DeleteToEndOfLine)
            } else if c == 'w' {
                Some(Command::DeleteWordLeadingToCursor)
            } else {
                None
            }
        } else {
            Some(Command::Insert(c))
        },
        Key::Other => None,
    }
}

/// Convert a key event to a command using the default keybindings.
pub fn event_to_command(event: &KeyEvent) -> (r: Option<Command>)
    ensures
        r == spec_event_to_command(*event),
{
    let ctrl = event.ctrl;
    match event.code {
        Key::Esc => None,
        Key::Enter => None,
        Key::Backspace => Some(Command::Backspace),
        Key::Delete => Some(Command::Delete),
        Key::Left => Some(Command::CursorLeft(1)),
        Key::Right => Some(Command::CursorRight(1)),
        Key::Home => Some(Command::CursorToStartOfLine),
        Key::End => Some(Command::CursorToEndOfLine),
        Key::Char(c) => if ctrl {
            if c == 'q' {
                None
            } else if c == 'h' {
                Some(Command::Backspace)
            } else if c == 'd' {
                Some(Command::Delete)
            } else if c == 'b' {
                Some(Command::CursorLeft(1))
            } else if c == 'f' {
                Some(Command::CursorRight(1))
            } else if c == 'a' {
                Some(Command::CursorToStartOfLine)
            } else if c == 'e' {
                Some(Command::CursorToEndOfLine)
            } else if c == 'u' {
                Some(Command::DeleteStartOfLineToCursor)
            } else if c == 'k' {
                Some(Command::DeleteToEndOfLine)
            } else if c == 'w' {
                Some(Command::DeleteWordLeadingToCursor)
            } else {
                None
            }
        } else {
            Some(Command::Insert(c))
        },
        Key::Other => None,
    }
}

/// Enter, Escape and Ctrl-Q are reserved for the host control loop: they
/// map to no command, whatever the modifier state.
pub proof fn lemma_reserved_keys_give_no_command(event: KeyEvent)
    requires
        event.code == Key::Enter || event.code == Key::Esc || (event.code == Key::Char('q')
            && event.ctrl),
    ensures
        spec_event_to_command(event) is None,
{
}

/// Every character key without the control modifier maps to inserting
/// exactly that character.
pub proof fn lemma_plain_char_inserts(c: char)
    ensures
        spec_event_to_command((KeyEvent { code: Key::Char(c), ctrl: false })) == Some(
            Command::Insert(c),
        ),
{
}

} // verus!
