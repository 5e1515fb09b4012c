//! News items of the launcher's service.
use vstd::prelude::*;

verus! {

/// One news item.
#[derive(Debug, Default, Clone, PartialEq, Eq)]
pub struct News {
    pub id: String,
    pub creator_id: String,
    pub title: String,
    pub body: String,
    pub created_at: String,
    pub updated_at: String,
    pub not_clickable: bool,
}

/// Title of the item shown when the news could not be loaded.
pub open spec fn news_error_title() -> Seq<char> {
    "Error: couldn't load news from service"@
}

impl News {
    /// The item shown in place of the news when they could not be loaded:
    /// only a title, and it cannot be opened.
    pub fn error_news() -> (r: Self)
        ensures
            r.title@ == news_error_title(),
            r.id@.len() == 0,
            r.creator_id@.len() == 0,
            r.body@.len() == 0,
            r.created_at@.len() == 0,
            r.updated_at@.len() == 0,
            r.not_clickable,
    {
        News {
            id: String::new(),
            creator_id: String::new(),
            title: String::from_str("Error: couldn't load news from service"),
            body: String::new(),
            created_at: String::new(),
            updated_at: String::new(),
            not_clickable: true,
        }
    }
}

} // verus!
