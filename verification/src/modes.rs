//! The input modes of the prompt and what a finished prompt asks for.

use vstd::prelude::*;
use crate::history::{Operation, OperationView};

verus! {

/// What the keyboard is for at the moment: commands, or the text of a prompt.
#[derive(Clone, Copy, Debug, PartialEq, Eq, Structural)]
pub enum Mode {
    Normal,
    Search,
    Create,
    Rename,
}

/// What the prompt asks of the browser when a key ends it.
#[derive(Debug, PartialEq, Eq)]
pub enum ModeAction {
    /// Move the selection to this index.
    Select(usize),
    /// Create what the operation names, then record it.
    CreateEntry(Operation),
    /// Rename as the operation says, then record it.
    RenameEntry(Operation),
    /// Nothing: the prompt was left.
    Exit,
}

/// The mathematical value of a `ModeAction`.
pub enum ModeActionView {
    Select(usize),
    CreateEntry(OperationView),
    RenameEntry(OperationView),
    Exit,
}

impl View for ModeAction {
    type V = ModeActionView;

    open spec fn view(&self) -> ModeActionView {
        match *self {
            ModeAction::Select(index) => ModeActionView::Select(index),
            ModeAction::CreateEntry(op) => ModeActionView::CreateEntry(op@),
            ModeAction::RenameEntry(op) => ModeActionView::RenameEntry(op@),
            ModeAction::Exit => ModeActionView::Exit,
        }
    }
}

/// The value of an optional action.
pub open spec fn opt_action(action: Option<ModeAction>) -> Option<ModeActionView> {
    match action {
        Some(a) => Some(a@),
        None => None,
    }
}

} // verus!
