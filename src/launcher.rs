//! The launcher's own state: commands between threads, the control state
//! machine, the self-update pipeline, configuration and locales.
pub mod commands;
pub mod config;
pub mod launcher_controller;
pub mod launcher_update;
pub mod locale;
