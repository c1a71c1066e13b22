//! The window-management core of a terminal text editor: the table of
//! windows, which of them has the focus, what needs to be redrawn, the key
//! bindings of the editing modes, and how each command changes that state.

pub mod command;
pub mod frame;
pub mod keymap;
pub mod screen;
pub mod view;
pub mod modes;
pub mod editor;
pub mod laws;
pub mod placement;
pub mod behaviour;
