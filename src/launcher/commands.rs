//! Commands passed between the interface, the control thread and workers.
use vstd::prelude::*;

verus! {

/// A signal between threads.
#[derive(Debug, Clone, PartialEq, Eq)]
pub enum Command {
    /// Launch the game.
    Run,
    /// The game has ended: back to idle.
    Continue,
    /// Local files are being checked.
    Validate,
    /// Download progress: `downloaded` bytes of `total`.
    Download { downloaded: u64, total: u64 },
    /// The package is being extracted.
    Unzipping,
    /// Ready: the game is starting.
    Play,
    /// Something failed; the text says what.
    Error { message: String },
    /// Nothing to do.
    Nothing,
    /// Leave the control loop.
    Exit,
}

/// A command as a mathematical value.
pub enum CommandView {
    Run,
    Continue,
    Validate,
    Download { downloaded: u64, total: u64 },
    Unzipping,
    Play,
    Error { message: Seq<char> },
    Nothing,
    Exit,
}

impl View for Command {
    type V = CommandView;

    open spec fn view(&self) -> CommandView {
        match self {
            Command::Run => CommandView::Run,
            Command::Continue => CommandView::Continue,
            Command::Validate => CommandView::Validate,
            Command::Download { downloaded, total } => CommandView::Download {
                downloaded: *downloaded,
                total: *total,
            },
            Command::Unzipping => CommandView::Unzipping,
            Command::Play => CommandView::Play,
            Command::Error { message } => CommandView::Error { message: message@ },
            Command::Nothing => CommandView::Nothing,
            Command::Exit => CommandView::Exit,
        }
    }
}

/// The views of a sequence of commands.
pub open spec fn command_views(cmds: Seq<Command>) -> Seq<CommandView> {
    cmds.map_values(|c: Command| c@)
}

} // verus!
