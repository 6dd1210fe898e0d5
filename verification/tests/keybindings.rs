use string_cmd::commands::Command;
use string_cmd::events::{event_to_command, Key, KeyEvent};

fn plain(code: Key) -> KeyEvent {
    KeyEvent { code, ctrl: false }
}

fn ctrl(code: Key) -> KeyEvent {
    KeyEvent { code, ctrl: true }
}

#[test]
fn reserved_keys_give_no_command() {
    assert_eq!(event_to_command(&plain(Key::Enter)), None);
    assert_eq!(event_to_command(&ctrl(Key::Enter)), None);
    assert_eq!(event_to_command(&plain(Key::Esc)), None);
    assert_eq!(event_to_command(&ctrl(Key::Esc)), None);
    assert_eq!(event_to_command(&ctrl(Key::Char('q'))), None);
}

#[test]
fn navigation_keys_and_emacs_equivalents_agree() {
    assert_eq!(
        event_to_command(&plain(Key::Backspace)),
        Some(Command::Backspace)
    );
    assert_eq!(
        event_to_command(&ctrl(Key::Char('h'))),
        Some(Command::Backspace)
    );

    assert_eq!(event_to_command(&plain(Key::Delete)), Some(Command::Delete));
    assert_eq!(
        event_to_command(&ctrl(Key::Char('d'))),
        Some(Command::Delete)
    );

    assert_eq!(
        event_to_command(&plain(Key::Left)),
        Some(Command::CursorLeft(1))
    );
    assert_eq!(
        event_to_command(&ctrl(Key::Char('b'))),
        Some(Command::CursorLeft(1))
    );

    assert_eq!(
        event_to_command(&plain(Key::Right)),
        Some(Command::CursorRight(1))
    );
    assert_eq!(
        event_to_command(&ctrl(Key::Char('f'))),
        Some(Command::CursorRight(1))
    );

    assert_eq!(
        event_to_command(&plain(Key::Home)),
        Some(Command::CursorToStartOfLine)
    );
    assert_eq!(
        event_to_command(&ctrl(Key::Char('a'))),
        Some(Command::CursorToStartOfLine)
    );

    assert_eq!(
        event_to_command(&plain(Key::End)),
        Some(Command::CursorToEndOfLine)
    );
    assert_eq!(
        event_to_command(&ctrl(Key::Char('e'))),
        Some(Command::CursorToEndOfLine)
    );
}

#[test]
fn kill_bindings() {
    assert_eq!(
        event_to_command(&ctrl(Key::Char('u'))),
        Some(Command::DeleteStartOfLineToCursor)
    );
    assert_eq!(
        event_to_command(&ctrl(Key::Char('k'))),
        Some(Command::DeleteToEndOfLine)
    );
    assert_eq!(
        event_to_command(&ctrl(Key::Char('w'))),
        Some(Command::DeleteWordLeadingToCursor)
    );
}

#[test]
fn plain_printable_characters_insert_themselves() {
    assert_eq!(
        event_to_command(&plain(Key::Char('x'))),
        Some(Command::Insert('x'))
    );
    assert_eq!(
        event_to_command(&plain(Key::Char('Q'))),
        Some(Command::Insert('Q'))
    );
    assert_eq!(
        event_to_command(&plain(Key::Char(' '))),
        Some(Command::Insert(' '))
    );
    assert_eq!(
        event_to_command(&plain(Key::Char('7'))),
        Some(Command::Insert('7'))
    );
    // Letters bound only in combination with Ctrl insert themselves when
    // pressed plainly.
    assert_eq!(
        event_to_command(&plain(Key::Char('q'))),
        Some(Command::Insert('q'))
    );
    assert_eq!(
        event_to_command(&plain(Key::Char('u'))),
        Some(Command::Insert('u'))
    );
}

#[test]
fn ctrl_with_unbound_character_gives_no_command() {
    assert_eq!(event_to_command(&ctrl(Key::Char('z'))), None);
    assert_eq!(event_to_command(&ctrl(Key::Char('x'))), None);
}

#[test]
fn unbound_keys_give_no_command() {
    assert_eq!(event_to_command(&plain(Key::Other)), None);
    assert_eq!(event_to_command(&ctrl(Key::Other)), None);
}
