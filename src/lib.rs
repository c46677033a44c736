//! A modal text-editing engine: buffers with selections, an action
//! interpreter, per-mode key bindings and the mode state machine.
pub mod buffer;
pub mod editor;
pub mod actions;
pub mod keymap;
pub mod laws;
