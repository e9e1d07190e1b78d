//! A terminal shell front-end's session model: which pane has the keyboard,
//! the histories of the input, output and error panes, and how key presses
//! and command results change them.

pub mod focus;
pub mod text;
pub mod session;
pub mod pane;
