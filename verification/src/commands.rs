use vstd::prelude::*;

verus! {

/// The editing mode selecting which keybinding table maps key events.
/// Only the Emacs table is wired end-to-end; the Vi variant and its substates
/// are modeled as data for a future mode-aware keymap layer.
#[derive(Debug, Clone)]
pub enum EditingMode {
    Emacs,
    Vi(ViMode),
}

impl Default for EditingMode {
    fn default() -> (r: Self)
        ensures
            r is Emacs,
    {
        EditingMode::Emacs
    }
}

/// A command to be executed on the editor. See [`crate::StringEditor::execute`].
#[derive(Debug, Clone, PartialEq)]
pub enum Command {
    /// Insert a character at the cursor.
    Insert(char),
    /// Insert a string at the cursor.
    Type(String),
    /// Move the cursor to the start of the line.
    CursorToStartOfLine,
    /// Move the cursor to the end of the line.
    CursorToEndOfLine,
    /// Move the cursor left by a given number of characters.
    CursorLeft(usize),
    /// Move the cursor right by a given number of characters.
    CursorRight(usize),
    /// Delete the character at the cursor.
    Delete,
    /// Delete the character before the cursor.
    Backspace,
    /// Transpose the characters around the cursor. (TBI)
    Transpose,
    /// Delete from the start of the line to the cursor.
    DeleteStartOfLineToCursor,
    /// Delete the word leading to the cursor.
    DeleteWordLeadingToCursor,
    /// Paste the last yanked text at the cursor. (TBI)
    PasteFromYank,
    /// Undo the last command. (TBI)
    Undo,
    /// Delete to the end of the line.
    DeleteToEndOfLine,
    /// Move the cursor to the previous word. (TBI)
    CursorToPreviousWord,
    /// Capitalize the current word. (TBI)
    CapitalizeCurrentWord,
    /// Delete the current word. (TBI)
    DeleteWord,
    /// Move the cursor to the next word. (TBI)
    CursorToNextWord,
    /// Lowercase the next word. (TBI)
    LowerCaseNextWord,
    /// Uppercase the next word. (TBI)
    UpperCaseNextWord,
    /// Transpose the words before and after the cursor. (TBI)
    TransposeWords,
}

impl Command {
    /// The commands that are wired to behavior in the editor; the rest of the
    /// vocabulary is declared ahead of its implementation, and dispatching one
    /// of those is an explicit "unimplemented" failure, never a silent no-op.
    pub open spec fn is_implemented(self) -> bool {
        match self {
            Command::Insert(_) => true,
            Command::Type(_) => true,
            Command::CursorToStartOfLine => true,
            Command::CursorToEndOfLine => true,
            Command::CursorLeft(_) => true,
            Command::CursorRight(_) => true,
            Command::Delete => true,
            Command::Backspace => true,
            Command::DeleteStartOfLineToCursor => true,
            Command::DeleteWordLeadingToCursor => true,
            Command::DeleteToEndOfLine => true,
            _ => false,
        }
    }

    /// Whether this command has execution logic behind it.
    pub fn implemented(&self) -> (r: bool)
        ensures
            r == self.is_implemented(),
    {
        match self {
            Command::Insert(_) => true,
            Command::Type(_) => true,
            Command::CursorToStartOfLine => true,
            Command::CursorToEndOfLine => true,
            Command::CursorLeft(_) => true,
            Command::CursorRight(_) => true,
            Command::Delete => true,
            Command::Backspace => true,
            Command::DeleteStartOfLineToCursor => true,
            Command::DeleteWordLeadingToCursor => true,
            Command::DeleteToEndOfLine => true,
            _ => false,
        }
    }
}

/// Substates of the Vi editing mode (modeled as data, not yet wired).
#[derive(Debug, Clone)]
pub enum ViMode {
    Command,
    Insert,
}

/// Fine-grained cursor and word-boundary targets, reserved as an extension
/// point for a future motion-based command layer; no executed command uses
/// them today.
#[derive(Debug, Clone)]
pub enum Movement {
    ToEndOfLine,
    WordOrTokenLeft,
    NonBlankWordLeft,
    WordOrTokenRight,
    NonBlankWordRight,
    EndOfCurrentWord,
    EndOfCurrentNonBlankWord,
    NextOccurrenceOfChar(char),
    PreviousOccurrenceOfChar(char),
    CharLeft,
    CharRight,
    BeforeNextOccurrenceOfChar(char),
    AfterPreviousOccurrenceOfChar(char),
}

} // verus!
