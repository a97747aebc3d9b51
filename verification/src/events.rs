//! What comes in from the terminal, and what the browser asks of the
//! outside world in return.

use vstd::prelude::*;
use crate::file_ops::{FsStep, FsStepView};
use crate::history::{Operation, OperationView};
use crate::seqs::views;

verus! {

/// A key of the keyboard, as far as the browser tells keys apart.
#[derive(Clone, Copy, Debug, PartialEq, Eq, Structural)]
pub enum KeyCode {
    Char(char),
    Enter,
    Esc,
    Backspace,
    Up,
    Down,
    Left,
    Right,
    Home,
    End,
    Other,
}

/// A key press; `control` says that Control, and no other modifier, was held.
#[derive(Clone, Copy, Debug, PartialEq, Eq, Structural)]
pub struct KeyEvent {
    pub code: KeyCode,
    pub control: bool,
}

/// What the mouse did.
#[derive(Clone, Copy, Debug, PartialEq, Eq, Structural)]
pub enum MouseEventKind {
    ScrollDown,
    ScrollUp,
    LeftDown,
    Other,
}

/// A mouse event on the terminal row `row`.
#[derive(Clone, Copy, Debug, PartialEq, Eq, Structural)]
pub struct MouseEvent {
    pub kind: MouseEventKind,
    pub row: u16,
}

/// An event of the terminal.
#[derive(Clone, Copy, Debug, PartialEq, Eq, Structural)]
pub enum Event {
    Key(KeyEvent),
    Mouse(MouseEvent),
    /// The terminal now has this many columns and rows.
    Resize(u16, u16),
    Other,
}

/// The commands of Normal mode.
#[derive(Clone, Copy, Debug, PartialEq, Eq, Structural)]
pub enum Command {
    MoveDown,
    MoveUp,
    GoToTop,
    GoToBottom,
    Activate,
    GoBack,
    BeginSearch,
    NextMatch,
    BeginCreate,
    BeginRename,
    Delete,
    Undo,
    Redo,
    Quit,
}

/// The command that a character key stands for.
pub open spec fn char_command(c: char, control: bool) -> Option<Command> {
    if c == '/' {
        Some(Command::BeginSearch)
    } else if c == 'n' {
        Some(Command::NextMatch)
    } else if c == 'a' {
        Some(Command::BeginCreate)
    } else if c == 'r' {
        if control {
            Some(Command::Redo)
        } else {
            Some(Command::BeginRename)
        }
    } else if c == 'q' {
        Some(Command::Quit)
    } else if c == 'j' {
        Some(Command::MoveDown)
    } else if c == 'k' {
        Some(Command::MoveUp)
    } else if c == 'G' {
        Some(Command::GoToBottom)
    } else if c == 'g' {
        Some(Command::GoToTop)
    } else if c == 'd' {
        Some(Command::Delete)
    } else if c == 'u' {
        Some(Command::Undo)
    } else if c == 'b' {
        Some(Command::GoBack)
    } else {
        None
    }
}

/// The command that a key stands for in Normal mode, if any.
pub open spec fn command_of(key: KeyEvent) -> Option<Command> {
    match key.code {
        KeyCode::Char(c) => char_command(c, key.control),
        KeyCode::Down => Some(Command::MoveDown),
        KeyCode::Up => Some(Command::MoveUp),
        KeyCode::End => Some(Command::GoToBottom),
        KeyCode::Home => Some(Command::GoToTop),
        KeyCode::Enter => Some(Command::Activate),
        KeyCode::Right => Some(Command::Activate),
        KeyCode::Left => Some(Command::GoBack),
        KeyCode::Backspace => Some(Command::GoBack),
        KeyCode::Esc => None,
        KeyCode::Other => None,
    }
}

/// The command that a key stands for in Normal mode, if any.
pub fn command_for_key(key: KeyEvent) -> (command: Option<Command>)
    ensures
        command == command_of(key),
{
    match key.code {
        KeyCode::Char(c) => {
            if c == '/' {
                Some(Command::BeginSearch)
            } else if c == 'n' {
                Some(Command::NextMatch)
            } else if c == 'a' {
                Some(Command::BeginCreate)
            } else if c == 'r' {
                if key.control {
                    Some(Command::Redo)
                } else {
                    Some(Command::BeginRename)
                }
            } else if c == 'q' {
                Some(Command::Quit)
            } else if c == 'j' {
                Some(Command::MoveDown)
            } else if c == 'k' {
                Some(Command::MoveUp)
            } else if c == 'G' {
                Some(Command::GoToBottom)
            } else if c == 'g' {
                Some(Command::GoToTop)
            } else if c == 'd' {
                Some(Command::Delete)
            } else if c == 'u' {
                Some(Command::Undo)
            } else if c == 'b' {
                Some(Command::GoBack)
            } else {
                None
            }
        },
        KeyCode::Down => Some(Command::MoveDown),
        KeyCode::Up => Some(Command::MoveUp),
        KeyCode::End => Some(Command::GoToBottom),
        KeyCode::Home => Some(Command::GoToTop),
        KeyCode::Enter => Some(Command::Activate),
        KeyCode::Right => Some(Command::Activate),
        KeyCode::Left => Some(Command::GoBack),
        KeyCode::Backspace => Some(Command::GoBack),
        KeyCode::Esc => None,
        KeyCode::Other => None,
    }
}

/// The character that a key feeds to an open prompt, if any: Enter is a
/// line feed, Backspace the delete character.
pub open spec fn prompt_char(code: KeyCode) -> Option<char> {
    match code {
        KeyCode::Enter => Some('\n'),
        KeyCode::Char(c) => Some(c),
        KeyCode::Backspace => Some('\x7f'),
        _ => None,
    }
}

/// The character that a key feeds to an open prompt, if any.
pub fn prompt_char_for(code: KeyCode) -> (input: Option<char>)
    ensures
        input == prompt_char(code),
{
    match code {
        KeyCode::Enter => Some('\n'),
        KeyCode::Char(c) => Some(c),
        KeyCode::Backspace => Some('\x7f'),
        _ => None,
    }
}

/// What is to happen to the journal and the listing once the steps of an
/// `Effect::Apply` have succeeded.
#[derive(Debug, PartialEq, Eq)]
pub enum Completion {
    /// Record the creation and select the last entry.
    Created(Operation),
    /// Record the rename.
    Renamed(Operation),
    /// Move the journal's cursor back over the undone operation.
    Undone,
    /// Move the journal's cursor past the redone operation.
    Redone,
}

/// The mathematical value of a `Completion`.
pub enum CompletionView {
    Created(OperationView),
    Renamed(OperationView),
    Undone,
    Redone,
}

impl CompletionView {
    /// The operation that is to be recorded, if there is one, is well-formed.
    pub open spec fn wf(self) -> bool {
        match self {
            CompletionView::Created(op) => op.wf(),
            CompletionView::Renamed(op) => op.wf(),
            CompletionView::Undone => true,
            CompletionView::Redone => true,
        }
    }
}

impl Completion {
    /// Whether the completion is well-formed, for callers that cannot prove it.
    pub fn is_valid(&self) -> (ok: bool)
        ensures
            ok == self@.wf(),
    {
        match self {
            Completion::Created(op) => op.is_valid(),
            Completion::Renamed(op) => op.is_valid(),
            Completion::Undone => true,
            Completion::Redone => true,
        }
    }
}

impl View for Completion {
    type V = CompletionView;

    open spec fn view(&self) -> CompletionView {
        match *self {
            Completion::Created(op) => CompletionView::Created(op@),
            Completion::Renamed(op) => CompletionView::Renamed(op@),
            Completion::Undone => CompletionView::Undone,
            Completion::Redone => CompletionView::Redone,
        }
    }
}

/// What the caller is to do after an event. Nothing of it has happened
/// yet; where it fails, the caller reports the error and calls nothing.
#[derive(Debug, PartialEq, Eq)]
pub enum Effect {
    /// Nothing.
    Nothing,
    /// Leave the browser; the path is the current directory.
    Quit(String),
    /// Make the path the current directory, read it, and hand the
    /// listing to `InputHandler::entered`.
    ChangeDir(String),
    /// Open the file in an editor.
    OpenFile(String),
    /// Read what is to be saved of the path (the bytes of a file, the
    /// backup of a directory), make the record of it with
    /// `prepare_delete_operation`, delete the path, and hand the record to
    /// `InputHandler::deleted`. Where the path cannot be read, nothing is
    /// deleted.
    Delete { path: String, is_dir: bool, position: usize },
    /// Carry out the steps in order, read the current directory, and
    /// hand the completion and the listing to `InputHandler::applied`.
    Apply { steps: Vec<FsStep>, completion: Completion },
}

/// The mathematical value of an `Effect`.
pub enum EffectView {
    Nothing,
    Quit(Seq<char>),
    ChangeDir(Seq<char>),
    OpenFile(Seq<char>),
    Delete { path: Seq<char>, is_dir: bool, position: usize },
    Apply { steps: Seq<FsStepView>, completion: CompletionView },
}

impl View for Effect {
    type V = EffectView;

    open spec fn view(&self) -> EffectView {
        match *self {
            Effect::Nothing => EffectView::Nothing,
            Effect::Quit(p) => EffectView::Quit(p@),
            Effect::ChangeDir(p) => EffectView::ChangeDir(p@),
            Effect::OpenFile(p) => EffectView::OpenFile(p@),
            Effect::Delete { path, is_dir, position } => EffectView::Delete {
                path: path@,
                is_dir,
                position,
            },
            Effect::Apply { steps, completion } => EffectView::Apply {
                steps: views(steps@),
                completion: completion@,
            },
        }
    }
}

} // verus!
