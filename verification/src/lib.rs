//! The navigation engine of a terminal file browser.
//!
//! The engine owns the state of the browser and decides; it never touches
//! the disk or the terminal. An event goes in through
//! [`input::InputHandler::handle_event`], which changes the state and
//! returns an [`events::Effect`]: what the caller is to do on disk. What
//! the caller brings back goes in through `entered`, `deleted` and
//! `applied` of the same type. A failed effect is simply not reported, and
//! the journal stays as it was.
//!
//! - [`listing`]: the order of a directory listing.
//! - [`prompt`], [`modes`], [`search`]: the text prompt and its modes.
//! - [`history`], [`file_ops`], [`backup`]: the undo/redo journal, the
//!   steps that carry an operation out or take it back, and the backup of
//!   a directory that is about to be deleted.
//! - [`ui`]: the window on the listing.
//! - [`display`], [`icons`], [`state`]: display modules and the cache of
//!   rendered rows.
//! - [`input`], [`events`]: events, commands and effects.
//! - [`config`], [`explorer`], [`error`]: first start, script search path,
//!   error messages.
//! - [`paths`], [`text`], [`seqs`]: paths and text as sequences of
//!   characters.

pub mod backup;
pub mod config;
pub mod display;
pub mod entry;
pub mod error;
pub mod events;
pub mod explorer;
pub mod file_ops;
pub mod history;
pub mod icons;
pub mod input;
pub mod listing;
pub mod modes;
pub mod paths;
pub mod prompt;
pub mod search;
pub mod seqs;
pub mod state;
pub mod text;
pub mod ui;
