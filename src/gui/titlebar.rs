//! A window's title bar: its title, which buttons it offers, and whether the
//! window is full screen.
use vstd::prelude::*;

verus! {

/// A title bar; every button is offered unless switched off.
#[derive(Debug, Default, Clone, PartialEq, Eq)]
pub struct TitleBar {
    title: String,
    closable: bool,
    resizable: bool,
    minimaizable: bool,
    is_fullscreen: bool,
}

impl TitleBar {
    /// The title.
    pub closed spec fn title_text(self) -> Seq<char> {
        self.title@
    }

    /// The flags: closable, resizable, minimizable, full screen.
    pub closed spec fn flags(self) -> (bool, bool, bool, bool) {
        (self.closable, self.resizable, self.minimaizable, self.is_fullscreen)
    }

    /// A title bar with every button, not full screen.
    pub fn new(title: &str) -> (r: Self)
        ensures
            r.title_text() == title@,
            r.flags() == (true, true, true, false),
    {
        TitleBar {
            title: String::from_str(title),
            closable: true,
            resizable: true,
            minimaizable: true,
            is_fullscreen: false,
        }
    }

    /// Offers the close button or not.
    pub fn with_closable(self, closable: bool) -> (r: Self)
        ensures
            r.title_text() == self.title_text(),
            r.flags() == (closable, self.flags().1, self.flags().2, self.flags().3),
    {
        TitleBar { closable, ..self }
    }

    /// Offers the full-screen button or not.
    pub fn with_resizable(self, resizable: bool) -> (r: Self)
        ensures
            r.title_text() == self.title_text(),
            r.flags() == (self.flags().0, resizable, self.flags().2, self.flags().3),
    {
        TitleBar { resizable, ..self }
    }

    /// Offers the minimize button or not.
    pub fn with_minimaizable(self, minimaizable: bool) -> (r: Self)
        ensures
            r.title_text() == self.title_text(),
            r.flags() == (self.flags().0, self.flags().1, minimaizable, self.flags().3),
    {
        TitleBar { minimaizable, ..self }
    }

    /// Flips full screen, as the full-screen button does; returns the new
    /// state. Without that button nothing changes.
    pub fn toggle_fullscreen(&mut self) -> (r: bool)
        ensures
            final(self).title_text() == old(self).title_text(),
            final(self).flags() == (
                old(self).flags().0,
                old(self).flags().1,
                old(self).flags().2,
                if old(self).flags().1 { !old(self).flags().3 } else { old(self).flags().3 },
            ),
            r == final(self).flags().3,
    {
        if self.resizable {
            self.is_fullscreen = !self.is_fullscreen;
        }
        self.is_fullscreen
    }

    /// The title.
    pub fn title(&self) -> (r: &str)
        ensures
            r@ == self.title_text(),
    {
        self.title.as_str()
    }

    /// Whether the close button is offered.
    pub fn closable(&self) -> (r: bool)
        ensures
            r == self.flags().0,
    {
        self.closable
    }

    /// Whether the full-screen button is offered.
    pub fn resizable(&self) -> (r: bool)
        ensures
            r == self.flags().1,
    {
        self.resizable
    }

    /// Whether the minimize button is offered.
    pub fn minimaizable(&self) -> (r: bool)
        ensures
            r == self.flags().2,
    {
        self.minimaizable
    }

    /// Whether the window is full screen.
    pub fn is_fullscreen(&self) -> (r: bool)
        ensures
            r == self.flags().3,
    {
        self.is_fullscreen
    }
}

} // verus!
