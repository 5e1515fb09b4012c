//! The interface languages.
use vstd::prelude::*;

verus! {

/// The interface languages.
pub struct Locale;

/// The language whose texts are loaded for a requested one: the request if
/// it is offered, English otherwise.
pub open spec fn resolved_locale(requested: Seq<char>) -> Seq<char> {
    if requested == "ru-RU"@ {
        "ru-RU"@
    } else {
        "en-US"@
    }
}

impl Locale {
    /// The offered languages.
    pub fn get_list() -> (r: Vec<String>)
        ensures
            r@.len() == 2,
            r@[0]@ == "ru-RU"@,
            r@[1]@ == "en-US"@,
    {
        vec![String::from_str("ru-RU"), String::from_str("en-US")]
    }

    /// The language to load for a requested one.
    pub fn resolve(requested: &str) -> (r: String)
        ensures
            r@ == resolved_locale(requested@),
    {
        let ru = String::from_str("ru-RU");
        if String::from_str(requested) == ru {
            ru
        } else {
            String::from_str("en-US")
        }
    }
}

} // verus!
