//! Core of a terminal-resident modal text editor: a line-oriented text
//! buffer, a cursor/viewport coordinate model, and the modal state machine
//! that turns input events into editing actions.

pub mod buffer;
pub mod editor;
pub mod input;
pub mod render;
