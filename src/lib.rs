//! The state-transition core of a small text editor: a controller that owns
//! the editor's state, interprets one message at a time and asks for at most
//! one file operation per message.
pub mod buffer;
pub mod error;
pub mod files;
pub mod editor;
pub mod display;
pub mod lemmas;
