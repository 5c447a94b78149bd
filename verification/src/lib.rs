//! The core of a small note-taking tool: an ordered list of notes, the draft
//! form through which a new note is composed, and the commands that tie the
//! two together.
//!
//! Nothing here touches a file or a window. A front end feeds commands to a
//! [`notepad::Notepad`] and learns from the returned [`notepad::Effect`]
//! when the list has to be written out again.

pub mod note;
pub mod store;
pub mod form;
pub mod notepad;
pub mod laws;
