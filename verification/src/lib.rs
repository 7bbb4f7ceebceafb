//! The state and the decisions of chap's terminal user interface: which pane
//! has the focus, how the file view and the chat view scroll, how a line of
//! the file is styled, where the cursor stands, how the screen is divided and
//! what every key press does.

pub mod style;
pub mod focus;
pub mod panes;
pub mod input;
pub mod chat;
pub mod content;
pub mod cursor;
pub mod layout;
pub mod ui;
