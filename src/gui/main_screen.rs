//! What the main screen shows, as driven by the commands it receives.
use vstd::prelude::*;
use crate::gui::message_screen::{MsgBoxScreen, MsgLevel};
use crate::launcher::commands::Command;
use crate::text::{decimal, push_decimal};

verus! {

/// Whether the screen shows a progress bar or a plain label.
#[derive(Debug, Clone, Copy, PartialEq, Eq, Structural)]
pub enum ScreenState {
    Updating,
    Idle,
}

/// Which status text is shown; the interface translates it.
#[derive(Debug, Clone, Copy, PartialEq, Eq, Structural)]
pub enum StatusLabel {
    Ready,
    Running,
    Checking,
    Downloading,
    Unpacking,
}

/// The main screen's status: state, label, progress (`downloaded` of
/// `total`), and the last error message box.
#[derive(Debug, Clone, PartialEq, Eq)]
pub struct MainScreenStatus {
    pub state: ScreenState,
    pub label: StatusLabel,
    pub downloaded: u64,
    pub total: u64,
    pub error: MsgBoxScreen,
}

/// Amount shown for a byte count in the download label.
pub open spec fn shown_amount(bytes: u64) -> nat {
    (bytes / 2048) as nat
}

impl MainScreenStatus {
    /// The status at start-up: ready, with a full bar and no message.
    pub fn new() -> (r: Self)
        ensures
            r.state == ScreenState::Idle,
            r.label == StatusLabel::Ready,
            r.downloaded == 1 && r.total == 1,
            !r.error.visible_spec(),
    {
        MainScreenStatus {
            state: ScreenState::Idle,
            label: StatusLabel::Ready,
            downloaded: 1,
            total: 1,
            error: MsgBoxScreen::default_hidden(),
        }
    }

    /// Takes a command from the control side. Progress commands show the
    /// bar; `Run`, `Play`, `Continue` and errors show the label; an error
    /// also opens a message box with its text. Other commands change nothing.
    pub fn apply(&mut self, cmd: &Command)
        ensures
            match *cmd {
                Command::Run => final(self).state == ScreenState::Idle && final(self).label
                    == StatusLabel::Running,
                Command::Play => final(self).state == ScreenState::Idle && final(self).label
                    == StatusLabel::Running,
                Command::Continue => final(self).state == ScreenState::Idle && final(self).label
                    == StatusLabel::Ready,
                Command::Validate => final(self).state == ScreenState::Updating && final(self).label
                    == StatusLabel::Checking,
                Command::Unzipping => final(self).state == ScreenState::Updating
                    && final(self).label == StatusLabel::Unpacking,
                Command::Download { downloaded, total } => final(self).state
                    == ScreenState::Updating && final(self).label == StatusLabel::Downloading
                    && final(self).downloaded == downloaded && final(self).total == total,
                Command::Error { message } => final(self).state == ScreenState::Idle
                    && final(self).label == old(self).label && final(self).error.visible_spec()
                    && final(self).error.title_text() == "Error"@ && final(self).error.msg_text()
                    == message@ && final(self).error.msg_level_spec() == MsgLevel::Error,
                _ => *final(self) == *old(self),
            },
            !(*cmd is Download) ==> final(self).downloaded == old(self).downloaded
                && final(self).total == old(self).total,
            !(*cmd is Error) ==> final(self).error == old(self).error,
    {
        match cmd {
            Command::Run | Command::Play => {
                self.state = ScreenState::Idle;
                self.label = StatusLabel::Running;
            },
            Command::Continue => {
                self.state = ScreenState::Idle;
                self.label = StatusLabel::Ready;
            },
            Command::Validate => {
                self.state = ScreenState::Updating;
                self.label = StatusLabel::Checking;
            },
            Command::Download { downloaded, total } => {
                self.state = ScreenState::Updating;
                self.label = StatusLabel::Downloading;
                self.downloaded = *downloaded;
                self.total = *total;
            },
            Command::Unzipping => {
                self.state = ScreenState::Updating;
                self.label = StatusLabel::Unpacking;
            },
            Command::Error { message } => {
                self.state = ScreenState::Idle;
                self.error = MsgBoxScreen::error("Error", message.as_str());
            },
            _ => {},
        }
    }

    /// The download label: the translated word, then the amounts fetched
    /// and in all, as `<word> <a>Mb/<b>Mb`.
    pub fn progress_text(&self, word: &str) -> (r: String)
        ensures
            r@ == word@ + " "@ + decimal(shown_amount(self.downloaded)) + "Mb/"@ + decimal(
                shown_amount(self.total),
            ) + "Mb"@,
    {
        let mut out = String::from_str(word);
        out.append(" ");
        push_decimal(&mut out, self.downloaded / 2048);
        out.append("Mb/");
        push_decimal(&mut out, self.total / 2048);
        out.append("Mb");
        out
    }
}

} // verus!
