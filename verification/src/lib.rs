//! A verified line-editing engine: a single line of text plus a cursor,
//! mutated by a closed set of editing commands, together with a stateless
//! mapping layer from key events to commands.

use vstd::prelude::*;

/// Commands to be executed on the editor.
pub mod commands;
/// Key-event handling: the mapping from key events to commands.
pub mod events;

use crate::commands::Command;

verus! {

/// A `StringEditor` wraps a line of text and provides a way to edit it using
/// a variety of commands. It also keeps track of the cursor position, which
/// can be used for rendering.
///
/// The text is held as a sequence of Unicode scalar values; the cursor is an
/// offset into that sequence, always within `[0, len]` ("position between
/// characters"). Every command keeps the cursor inside those bounds by
/// clamping, never by reporting an error.
#[derive(Debug, Clone)]
pub struct StringEditor {
    text: Vec<char>,
    cursor: usize,
}

impl StringEditor {
    /// The text as a mathematical sequence of characters.
    pub closed spec fn text_view(self) -> Seq<char> {
        self.text@
    }

    /// The cursor offset, in characters.
    pub closed spec fn cursor_view(self) -> int {
        self.cursor as int
    }

    /// The editor invariant: the cursor stays within the text.
    pub open spec fn wf(self) -> bool {
        0 <= self.cursor_view() <= self.text_view().len()
    }

    /// Create a new `StringEditor` with an empty string.
    pub fn new() -> (r: Self)
        ensures
            r.text_view() == Seq::<char>::empty(),
            r.cursor_view() == 0,
            r.wf(),
    {
        StringEditor { text: Vec::new(), cursor: 0 }
    }

    /// Create a new `StringEditor` with a given string. Sets the cursor
    /// position to just after the end of the string.
    pub fn with_string(text: &str) -> (r: Self)
        ensures
            r.text_view() == text@,
            r.cursor_view() == text@.len(),
            r.wf(),
    {
        let n = text.unicode_len();
        let mut chars: Vec<char> = Vec::new();
        let mut i: usize = 0;
        while i < n
            invariant
                n == text@.len(),
                i <= n,
                chars@ == text@.subrange(0, i as int),
            decreases n - i,
        {
            let c = text.get_char(i);
            chars.push(c);
            proof {
                assert(chars@ =~= text@.subrange(0, i + 1));
            }
            i = i + 1;
        }
        proof {
            assert(chars@ =~= text@);
        }
        StringEditor { text: chars, cursor: n }
    }

    /// Get the current text of the editor.
    pub fn get_text(&self) -> (r: String)
        ensures
            r@ == self.text_view(),
    {
        let mut s = String::new();
        let n = self.text.len();
        let mut i: usize = 0;
        while i < n
            invariant
                n == self.text@.len(),
                i <= n,
                s@ == self.text@.subrange(0, i as int),
            decreases n - i,
        {
            push_char(&mut s, self.text[i]);
            proof {
                assert(s@ =~= self.text@.subrange(0, i + 1));
            }
            i = i + 1;
        }
        proof {
            assert(s@ =~= self.text@);
        }
        s
    }

    /// Get the current cursor position, in characters.
    pub fn cursor_pos(&self) -> (r: usize)
        ensures
            r == self.cursor_view(),
    {
        self.cursor
    }
}

impl Default for StringEditor {
    fn default() -> (r: Self)
        ensures
            r.text_view() == Seq::<char>::empty(),
            r.cursor_view() == 0,
            r.wf(),
    {
        StringEditor::new()
    }
}

/// Relies on `String::push`: appends the given character to the end of the
/// string.
#[verifier::external_body]
fn push_char(s: &mut String, c: char)
    ensures
        final(s)@ == old(s)@.push(c),
{
    s.push(c);
}

/// Whether a character has the Unicode `White_Space` property.
pub uninterp spec fn is_unicode_whitespace(c: char) -> bool;

/// Relies on `char::is_whitespace`: whether the character has the Unicode
/// `White_Space` property. The result depends on the character alone, and the
/// documented ASCII members of the property are exactly space, horizontal
/// tab, line feed, vertical tab, form feed and carriage return.
#[verifier::external_body]
fn char_is_whitespace(c: char) -> (r: bool)
    ensures
        r == is_unicode_whitespace(c),
        (c as u32) < 0x80 ==> (r <==> (c == ' ' || c == '\t' || c == '\n' || c == '\u{0B}'
            || c == '\u{0C}' || c == '\r')),
{
    c.is_whitespace()
}

/// The fixed punctuation set that, together with whitespace, bounds the word
/// removed by `Command::DeleteWordLeadingToCursor`.
pub open spec fn is_word_separator(c: char) -> bool {
    ||| c == '-'
    ||| c == '_'
    ||| c == '+'
    ||| c == '='
    ||| c == ','
    ||| c == '.'
    ||| c == '/'
    ||| c == '\\'
    ||| c == ':'
    ||| c == ';'
    ||| c == '!'
    ||| c == '?'
    ||| c == '@'
    ||| c == '#'
    ||| c == '$'
    ||| c == '%'
    ||| c == '^'
    ||| c == '&'
    ||| c == '*'
    ||| c == '('
    ||| c == ')'
    ||| c == '['
    ||| c == ']'
    ||| c == '{'
    ||| c == '}'
}

/// A character that belongs to the word deleted by
/// `Command::DeleteWordLeadingToCursor`: neither whitespace nor one of the
/// fixed punctuation set.
pub open spec fn is_word_char(c: char) -> bool {
    !is_unicode_whitespace(c) && !is_word_separator(c)
}

fn word_separator(c: char) -> (r: bool)
    ensures
        r == is_word_separator(c),
{
    match c {
        '-' | '_' | '+' | '=' | ',' | '.' | '/' | '\\' | ':' | ';' | '!' | '?' | '@' | '#' | '$'
            | '%' | '^' | '&' | '*' | '(' | ')' | '[' | ']' | '{' | '}' => true,
        _ => false,
    }
}

fn word_char(c: char) -> (r: bool)
    ensures
        r == is_word_char(c),
{
    if char_is_whitespace(c) {
        false
    } else {
        !word_separator(c)
    }
}

/// Where the leftward scan of `Command::DeleteWordLeadingToCursor` stops when
/// started at `pos`: the scan steps left while the character just before it
/// is a word character, and stops at the start of the text otherwise.
pub open spec fn word_start_from(text: Seq<char>, pos: int) -> int
    recommends
        0 <= pos <= text.len(),
    decreases pos,
{
    if pos <= 0 {
        0
    } else if is_word_char(text[pos - 1]) {
        word_start_from(text, pos - 1)
    } else {
        pos
    }
}

/// The scan stop position lies between the start of the text and where the
/// scan started.
pub proof fn lemma_word_start_from_bounds(text: Seq<char>, pos: int)
    requires
        0 <= pos,
    ensures
        0 <= word_start_from(text, pos) <= pos,
    decreases pos,
{
    if pos > 0 && is_word_char(text[pos - 1]) {
        lemma_word_start_from_bounds(text, pos - 1);
    }
}

/// The text after one implemented command is applied to the model
/// `(text, cursor)`. Commands that only move the cursor leave the text
/// unchanged.
pub open spec fn step_text(text: Seq<char>, cursor: int, command: Command) -> Seq<char>
    recommends
        0 <= cursor <= text.len(),
        command.is_implemented(),
{
    match command {
        Command::Insert(c) => text.insert(cursor, c),
        Command::Type(s) => text.subrange(0, cursor) + s@ + text.subrange(
            cursor,
            text.len() as int,
        ),
        Command::Delete => if cursor < text.len() {
            text.remove(cursor)
        } else {
            text
        },
        Command::Backspace => if cursor > 0 {
            text.remove(cursor - 1)
        } else {
            text
        },
        Command::DeleteStartOfLineToCursor => text.subrange(cursor, text.len() as int),
        Command::DeleteToEndOfLine => text.subrange(0, cursor),
        Command::DeleteWordLeadingToCursor => if cursor > 0 {
            text.subrange(0, word_start_from(text, cursor)) + text.subrange(
                cursor,
                text.len() as int,
            )
        } else {
            text
        },
        _ => text,
    }
}

/// The cursor after one implemented command is applied to the model
/// `(text, cursor)`. Arithmetic that would leave `[0, text.len()]` is
/// clamped, never an error.
pub open spec fn step_cursor(text: Seq<char>, cursor: int, command: Command) -> int
    recommends
        0 <= cursor <= text.len(),
        command.is_implemented(),
{
    match command {
        Command::Insert(_) => cursor + 1,
        Command::Type(s) => cursor + s@.len(),
        Command::CursorLeft(n) => if cursor - n >= 0 {
            cursor - n
        } else {
            0
        },
        Command::CursorRight(n) => if cursor + n <= text.len() {
            cursor + n
        } else {
            text.len() as int
        },
        Command::CursorToStartOfLine => 0,
        Command::CursorToEndOfLine => text.len() as int,
        Command::Delete => cursor,
        Command::Backspace => if cursor > 0 {
            cursor - 1
        } else {
            cursor
        },
        Command::DeleteStartOfLineToCursor => 0,
        Command::DeleteToEndOfLine => cursor,
        Command::DeleteWordLeadingToCursor => if cursor > 0 {
            word_start_from(text, cursor)
        } else {
            cursor
        },
        _ => cursor,
    }
}

/// The model state after a whole sequence of commands, applied in order.
pub open spec fn run_commands(text: Seq<char>, cursor: int, commands: Seq<Command>) -> (Seq<
    char,
>, int)
    decreases commands.len(),
{
    if commands.len() == 0 {
        (text, cursor)
    } else {
        let t = step_text(text, cursor, commands[0]);
        let c = step_cursor(text, cursor, commands[0]);
        run_commands(t, c, commands.drop_first())
    }
}

/// One implemented command applied to a model state within the invariant
/// yields a state within the invariant: no command moves the cursor outside
/// `[0, len(text)]`.
pub proof fn lemma_step_preserves_invariant(text: Seq<char>, cursor: int, command: Command)
    requires
        0 <= cursor <= text.len(),
        command.is_implemented(),
    ensures
        0 <= step_cursor(text, cursor, command) <= step_text(text, cursor, command).len(),
{
    if command is DeleteWordLeadingToCursor && cursor > 0 {
        lemma_word_start_from_bounds(text, cursor);
    }
}

/// Invariant: for every sequence of implemented commands, the cursor stays
/// within `[0, len(text)]`. Every prefix of such a sequence is itself such a
/// sequence, so the invariant holds after every step of the run.
pub proof fn lemma_run_preserves_invariant(text: Seq<char>, cursor: int, commands: Seq<Command>)
    requires
        0 <= cursor <= text.len(),
        forall|i: int| 0 <= i < commands.len() ==> (#[trigger] commands[i]).is_implemented(),
    ensures
        0 <= run_commands(text, cursor, commands).1 <= run_commands(
            text,
            cursor,
            commands,
        ).0.len(),
    decreases commands.len(),
{
    if commands.len() > 0 {
        lemma_step_preserves_invariant(text, cursor, commands[0]);
        let t = step_text(text, cursor, commands[0]);
        let c = step_cursor(text, cursor, commands[0]);
        assert forall|i: int|
            0 <= i < commands.drop_first().len() implies (#[trigger] commands.drop_first()[
        i]).is_implemented() by {
            assert(commands.drop_first()[i] == commands[i + 1]);
        }
        lemma_run_preserves_invariant(t, c, commands.drop_first());
    }
}

/// Clamping is idempotent: `CursorRight(n)` when the cursor is at the end of
/// the text is a no-op for any `n`, and so is `CursorLeft(n)` when the cursor
/// is at the start.
pub proof fn lemma_clamp_is_no_op(text: Seq<char>, cursor: int, n: usize)
    requires
        0 <= cursor <= text.len(),
    ensures
        cursor == text.len() ==> step_text(text, cursor, Command::CursorRight(n)) == text
            && step_cursor(text, cursor, Command::CursorRight(n)) == cursor,
        cursor == 0 ==> step_text(text, cursor, Command::CursorLeft(n)) == text && step_cursor(
            text,
            cursor,
            Command::CursorLeft(n),
        ) == cursor,
{
}

/// After `Insert(c)`, the cursor advances by exactly one offset unit, the
/// inserted character appears at the pre-insert cursor position, and the
/// characters around it are kept.
pub proof fn lemma_insert_cursor_coupling(text: Seq<char>, cursor: int, c: char)
    requires
        0 <= cursor <= text.len(),
    ensures
        step_cursor(text, cursor, Command::Insert(c)) == cursor + 1,
        step_text(text, cursor, Command::Insert(c)).len() == text.len() + 1,
        step_text(text, cursor, Command::Insert(c))[cursor] == c,
        forall|i: int|
            0 <= i < cursor ==> #[trigger] step_text(text, cursor, Command::Insert(c))[i]
                == text[i],
        forall|i: int|
            cursor <= i < text.len() ==> #[trigger] step_text(text, cursor, Command::Insert(c))[i
                + 1] == text[i],
{
    text.insert_ensures(cursor, c);
}

/// `Insert(c)` immediately followed by `Backspace` restores both text and
/// cursor to their pre-insert values, for any character.
pub proof fn lemma_insert_then_backspace_restores(text: Seq<char>, cursor: int, c: char)
    requires
        0 <= cursor <= text.len(),
    ensures
        run_commands(text, cursor, seq![Command::Insert(c), Command::Backspace]).0 == text,
        run_commands(text, cursor, seq![Command::Insert(c), Command::Backspace]).1 == cursor,
{
    let cmds = seq![Command::Insert(c), Command::Backspace];
    let t1 = step_text(text, cursor, Command::Insert(c));
    let c1 = step_cursor(text, cursor, Command::Insert(c));
    text.insert_ensures(cursor, c);
    assert(c1 == cursor + 1);
    assert(cmds[0] == Command::Insert(c));
    assert(cmds.drop_first() =~= seq![Command::Backspace]);
    let t2 = step_text(t1, c1, Command::Backspace);
    let c2 = step_cursor(t1, c1, Command::Backspace);
    assert(cmds.drop_first().drop_first() =~= Seq::<Command>::empty());
    assert(cmds.drop_first()[0] == Command::Backspace);
    assert(run_commands(text, cursor, cmds) == run_commands(t1, c1, cmds.drop_first()));
    assert(run_commands(t1, c1, cmds.drop_first()) == run_commands(
        t2,
        c2,
        cmds.drop_first().drop_first(),
    ));
    assert(run_commands(t2, c2, Seq::<Command>::empty()).0 == t2);
    assert(run_commands(t2, c2, Seq::<Command>::empty()).1 == c2);
    t1.remove_ensures(cursor);
    assert(t2 == t1.remove(cursor));
    assert(t1.remove(c1 - 1) =~= text);
    assert(c2 == cursor);
}

/// The error reported when a command of the vocabulary that has no execution
/// logic yet is dispatched.
#[derive(Debug, Clone, Copy, PartialEq, Eq, Structural)]
pub enum EditorError {
    /// The command is declared in the vocabulary but not wired to behavior.
    UnimplementedCommand,
}

impl StringEditor {
    /// Execute a command on the editor.
    ///
    /// Every implemented command is a total function over the clamped
    /// invariant: it never fails, and it never moves the cursor outside
    /// `[0, len]`. Commands without execution logic are excluded here; see
    /// [`StringEditor::try_execute`] for the entry point that reports them.
    pub fn execute(&mut self, command: Command)
        requires
            old(self).wf(),
            command.is_implemented(),
        ensures
            final(self).wf(),
            final(self).text_view() == step_text(
                old(self).text_view(),
                old(self).cursor_view(),
                command,
            ),
            final(self).cursor_view() == step_cursor(
                old(self).text_view(),
                old(self).cursor_view(),
                command,
            ),
    {
        match command {
            Command::Insert(c) => {
                self.text.insert(self.cursor, c);
                // The length read keeps the grown length within `usize`, so
                // the cursor update cannot overflow.
                let _n = self.text.len();
                self.cursor = self.cursor + 1;
            }
            Command::Type(s) => {
                let n = s.unicode_len();
                let mut tail = self.text.split_off(self.cursor);
                let mut i: usize = 0;
                while i < n
                    invariant
                        n == s@.len(),
                        i <= n,
                        old(self).wf(),
                        self.cursor == old(self).cursor,
                        self.text@ == old(self).text@.subrange(0, old(self).cursor as int)
                            + s@.subrange(0, i as int),
                        tail@ == old(self).text@.subrange(
                            old(self).cursor as int,
                            old(self).text@.len() as int,
                        ),
                    decreases n - i,
                {
                    let c = s.get_char(i);
                    self.text.push(c);
                    proof {
                        assert(s@.subrange(0, i as int).push(s@[i as int]) =~= s@.subrange(
                            0,
                            i + 1,
                        ));
                    }
                    i = i + 1;
                }
                self.text.append(&mut tail);
                proof {
                    assert(s@.subrange(0, n as int) =~= s@);
                }
                // The length read keeps the grown length within `usize`, so
                // the cursor update cannot overflow.
                let _m = self.text.len();
                self.cursor = self.cursor + n;
            }
            Command::CursorLeft(amt) => {
                self.cursor = if amt > self.cursor {
                    0
                } else {
                    self.cursor - amt
                };
            }
            Command::CursorRight(amt) => {
                let n = self.text.len();
                let room = n - self.cursor;
                self.cursor = if amt > room {
                    n
                } else {
                    self.cursor + amt
                };
            }
            Command::CursorToStartOfLine => {
                self.cursor = 0;
            }
            Command::CursorToEndOfLine => {
                self.cursor = self.text.len();
            }
            Command::Delete => {
                if self.cursor < self.text.len() {
                    self.text.remove(self.cursor);
                }
            }
            Command::Backspace => {
                if self.cursor > 0 {
                    self.text.remove(self.cursor - 1);
                    self.cursor = self.cursor - 1;
                }
            }
            Command::DeleteStartOfLineToCursor => {
                let tail = self.text.split_off(self.cursor);
                self.text = tail;
                self.cursor = 0;
            }
            Command::DeleteToEndOfLine => {
                self.text.truncate(self.cursor);
            }
            Command::DeleteWordLeadingToCursor => {
                if self.cursor > 0 {
                    let ghost text0 = self.text@;
                    let ghost cursor0 = self.cursor as int;
                    let mut pos: usize = self.cursor;
                    while pos > 0 && word_char(self.text[pos - 1])
                        invariant
                            self == old(self),
                            self.text@ == text0,
                            self.cursor as int == cursor0,
                            0 < cursor0 <= text0.len(),
                            0 <= pos <= cursor0,
                            word_start_from(text0, cursor0) == word_start_from(
                                text0,
                                pos as int,
                            ),
                        decreases pos,
                    {
                        pos = pos - 1;
                    }
                    proof {
                        assert(word_start_from(text0, cursor0) == pos as int);
                    }
                    let mut tail = self.text.split_off(self.cursor);
                    self.text.truncate(pos);
                    self.text.append(&mut tail);
                    self.cursor = pos;
                }
            }
            Command::Transpose | Command::PasteFromYank | Command::Undo
                | Command::CursorToPreviousWord | Command::CapitalizeCurrentWord
                | Command::DeleteWord | Command::CursorToNextWord | Command::LowerCaseNextWord
                | Command::UpperCaseNextWord | Command::TransposeWords => {
                proof {
                    assert(false);
                }
            }
        }
    }

    /// Execute a command if it has execution logic; report the explicit
    /// "unimplemented operation" condition otherwise, leaving the editor
    /// unchanged. Succeeds exactly on the implemented commands.
    pub fn try_execute(&mut self, command: Command) -> (r: Result<(), EditorError>)
        requires
            old(self).wf(),
        ensures
            final(self).wf(),
            command.is_implemented() ==> r == Ok::<(), EditorError>(())
                && final(self).text_view() == step_text(
                old(self).text_view(),
                old(self).cursor_view(),
                command,
            ) && final(self).cursor_view() == step_cursor(
                old(self).text_view(),
                old(self).cursor_view(),
                command,
            ),
            !command.is_implemented() ==> r == Err::<(), EditorError>(
                EditorError::UnimplementedCommand,
            ) && *final(self) == *old(self),
    {
        if command.implemented() {
            self.execute(command);
            Ok(())
        } else {
            Err(EditorError::UnimplementedCommand)
        }
    }
}

} // verus!
