//! A modal message: its title, text, level and visibility.
use vstd::prelude::*;

verus! {

/// How serious a message is.
#[derive(Debug, Clone, Copy, Default, PartialEq, Eq, Structural)]
pub enum MsgLevel {
    #[default]
    Info,
    Warn,
    Error,
}

/// A message box; it is visible until it is closed.
#[derive(Debug, Default, Clone, PartialEq, Eq)]
pub struct MsgBoxScreen {
    title: String,
    msg: String,
    msg_level: MsgLevel,
    visible: bool,
}

impl MsgBoxScreen {
    /// The title.
    pub closed spec fn title_text(self) -> Seq<char> {
        self.title@
    }

    /// The message text.
    pub closed spec fn msg_text(self) -> Seq<char> {
        self.msg@
    }

    /// The level.
    pub closed spec fn msg_level_spec(self) -> MsgLevel {
        self.msg_level
    }

    /// Whether the box is shown.
    pub closed spec fn visible_spec(self) -> bool {
        self.visible
    }

    /// A visible message box of the given level.
    pub fn new(title: &str, msg: &str, msg_level: MsgLevel) -> (r: Self)
        ensures
            r.title_text() == title@,
            r.msg_text() == msg@,
            r.msg_level_spec() == msg_level,
            r.visible_spec(),
    {
        MsgBoxScreen {
            title: String::from_str(title),
            msg: String::from_str(msg),
            msg_level,
            visible: true,
        }
    }

    /// A hidden, empty message box.
    pub fn default_hidden() -> (r: Self)
        ensures
            r.title_text().len() == 0,
            r.msg_text().len() == 0,
            r.msg_level_spec() == MsgLevel::Info,
            !r.visible_spec(),
    {
        MsgBoxScreen {
            title: String::new(),
            msg: String::new(),
            msg_level: MsgLevel::Info,
            visible: false,
        }
    }

    /// A visible information message.
    pub fn info(title: &str, msg: &str) -> (r: Self)
        ensures
            r.title_text() == title@,
            r.msg_text() == msg@,
            r.msg_level_spec() == MsgLevel::Info,
            r.visible_spec(),
    {
        Self::new(title, msg, MsgLevel::Info)
    }

    /// A visible warning.
    pub fn warn(title: &str, msg: &str) -> (r: Self)
        ensures
            r.title_text() == title@,
            r.msg_text() == msg@,
            r.msg_level_spec() == MsgLevel::Warn,
            r.visible_spec(),
    {
        Self::new(title, msg, MsgLevel::Warn)
    }

    /// A visible error message.
    pub fn error(title: &str, msg: &str) -> (r: Self)
        ensures
            r.title_text() == title@,
            r.msg_text() == msg@,
            r.msg_level_spec() == MsgLevel::Error,
            r.visible_spec(),
    {
        Self::new(title, msg, MsgLevel::Error)
    }

    /// Hides the message box, as its button does.
    pub fn close(&mut self)
        ensures
            !final(self).visible_spec(),
            final(self).title_text() == old(self).title_text(),
            final(self).msg_text() == old(self).msg_text(),
            final(self).msg_level_spec() == old(self).msg_level_spec(),
    {
        self.visible = false;
    }

    /// The title.
    pub fn title(&self) -> (r: &str)
        ensures
            r@ == self.title_text(),
    {
        self.title.as_str()
    }

    /// The message text.
    pub fn msg(&self) -> (r: &str)
        ensures
            r@ == self.msg_text(),
    {
        self.msg.as_str()
    }

    /// The level.
    pub fn msg_level(&self) -> (r: MsgLevel)
        ensures
            r == self.msg_level_spec(),
    {
        self.msg_level
    }

    /// Whether the box is shown.
    pub fn is_visible(&self) -> (r: bool)
        ensures
            r == self.visible_spec(),
    {
        self.visible
    }
}

} // verus!
