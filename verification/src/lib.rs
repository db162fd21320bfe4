//! Verified core of the Warp terminal-UI frontend: argument parsing, the
//! recording registry, conversation selection and the decisions of the
//! prompt-streaming surface.

pub mod args;
pub mod computer_use;
pub mod conversation_selection;
pub mod recording_controller;
pub mod text;
pub mod tui;
