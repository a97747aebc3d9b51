//! What can go wrong around the browser, and how it is reported.

use vstd::prelude::*;
use crate::text::concat_str;

verus! {

/// An error of the browser or of what it runs on. Each kind carries the
/// text of its cause.
#[derive(Debug, PartialEq, Eq)]
pub enum ExplorerError {
    /// Reading or changing the file system failed.
    Io(String),
    /// The configuration is missing or malformed.
    Config(String),
    /// An operation started by the user failed.
    OperationFailed(String),
    /// A display script failed.
    LuaError(String),
    /// Anything else.
    Other(String),
    /// There is no display script to load.
    NoLuaScript,
}

/// The mathematical value of an `ExplorerError`.
pub enum ExplorerErrorView {
    Io(Seq<char>),
    Config(Seq<char>),
    OperationFailed(Seq<char>),
    LuaError(Seq<char>),
    Other(Seq<char>),
    NoLuaScript,
}

impl View for ExplorerError {
    type V = ExplorerErrorView;

    open spec fn view(&self) -> ExplorerErrorView {
        match *self {
            ExplorerError::Io(cause) => ExplorerErrorView::Io(cause@),
            ExplorerError::Config(cause) => ExplorerErrorView::Config(cause@),
            ExplorerError::OperationFailed(cause) => ExplorerErrorView::OperationFailed(cause@),
            ExplorerError::LuaError(cause) => ExplorerErrorView::LuaError(cause@),
            ExplorerError::Other(cause) => ExplorerErrorView::Other(cause@),
            ExplorerError::NoLuaScript => ExplorerErrorView::NoLuaScript,
        }
    }
}

/// The line that reports an error: the kind, then the cause.
pub open spec fn message_of(error: ExplorerErrorView) -> Seq<char> {
    match error {
        ExplorerErrorView::Io(cause) => "I/O error: "@ + cause,
        ExplorerErrorView::Config(cause) => "Configuration error: "@ + cause,
        ExplorerErrorView::OperationFailed(cause) => "Operation failed: "@ + cause,
        ExplorerErrorView::LuaError(cause) => "Lua error: "@ + cause,
        ExplorerErrorView::Other(cause) => cause,
        ExplorerErrorView::NoLuaScript => "No Lua script found"@,
    }
}

impl ExplorerError {
    /// The line that reports this error.
    pub fn message(&self) -> (text: String)
        ensures
            text@ == message_of(self@),
    {
        match self {
            ExplorerError::Io(cause) => concat_str("I/O error: ", cause.as_str()),
            ExplorerError::Config(cause) => concat_str("Configuration error: ", cause.as_str()),
            ExplorerError::OperationFailed(cause) => concat_str("Operation failed: ", cause.as_str()),
            ExplorerError::LuaError(cause) => concat_str("Lua error: ", cause.as_str()),
            ExplorerError::Other(cause) => cause.clone(),
            ExplorerError::NoLuaScript => "No Lua script found".to_owned(),
        }
    }
}

} // verus!
