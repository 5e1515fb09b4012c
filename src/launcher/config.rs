//! The launcher's configuration: the selected locale.
use vstd::prelude::*;

verus! {

/// The locale used when the system reports none.
pub const DEFAULT_LOCALE: &'static str = "en-US";

/// The configuration.
#[derive(Debug, Clone, PartialEq, Eq)]
pub struct AppConfig {
    pub locale: String,
}

impl AppConfig {
    /// The configuration for a system whose locale is `detected`, if it
    /// reports one; otherwise English.
    pub fn from_detected(detected: Option<String>) -> (r: Self)
        ensures
            detected is Some ==> r.locale == detected.unwrap(),
            detected is None ==> r.locale@ == DEFAULT_LOCALE@,
    {
        match detected {
            Some(locale) => AppConfig { locale },
            None => AppConfig { locale: String::from_str(DEFAULT_LOCALE) },
        }
    }
}

} // verus!
