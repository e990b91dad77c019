//! A byte-at-a-time console that edits incoming modem lines and walks a
//! radio modem through joining a network and sending one message, using a
//! small fixed set of AT commands.

pub mod line_editor;
pub mod sequencer;
pub mod slot;
pub mod component;
pub mod console;
