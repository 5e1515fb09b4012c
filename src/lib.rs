//! Verified core of a game launcher: chunked range downloads, integrity
//! checks, the self-update and game-update pipelines, and the control state
//! machine that drives them.
pub mod api;
pub mod download;
pub mod gui;
pub mod launcher;
pub mod minecraft;
pub mod text;
