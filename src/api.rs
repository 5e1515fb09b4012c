//! The account service's data: sign-in credentials and token, and news items.
pub mod auth;
pub mod news;
