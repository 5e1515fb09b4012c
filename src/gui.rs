//! State of interface elements that the library owns: message boxes and
//! window title bars.
pub mod main_screen;
pub mod message_screen;
pub mod titlebar;
