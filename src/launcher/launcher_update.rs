//! The launcher's self-update: compare versions, download the new
//! executable in chunks, put it in place of the running one, relaunch.
use vstd::prelude::*;
use crate::download::{
    download_error_text, is_success, status_is_success, ChunkedDownload, DownloadError,
};

pub use crate::download::PartialRangeIter;

verus! {

/// Chunk size of the launcher download, in bytes.
pub const LAUNCHER_CHUNK_SIZE: u32 = 100 * 1024;

/// Download progress: `downloaded` bytes of `size`.
#[derive(Debug, Default, Clone, Copy, PartialEq, Eq, Structural)]
pub struct UpdateData {
    pub downloaded: u64,
    pub size: u64,
}

/// A signal from the self-update worker to its window.
#[derive(Debug, Clone, Copy, PartialEq, Eq, Structural)]
pub enum Command {
    /// Download progress.
    Data(UpdateData),
    /// Done: carry on (no update was needed, or the new executable runs).
    Completed,
    /// The update stopped before the executable was replaced.
    Abort,
}

/// How a self-update ended well.
#[derive(Debug, Clone, Copy, PartialEq, Eq, Structural)]
pub enum UpdateOutcome {
    NoUpdateNeeded,
    Updated,
}

/// What came of the last action.
#[derive(Debug, PartialEq, Eq)]
pub enum UpdateEvent {
    /// The answer to the version request: its status and text.
    VersionFetched { status: u16, text: String },
    /// The answer to the package size request.
    PackageInfo { status: u16, content_length: Option<u64> },
    /// The status of the answer to the current ranged request.
    ChunkReceived { status: u16 },
    /// Whether the current chunk was appended to the downloaded file.
    ChunkWritten(Result<(), String>),
    /// Whether the downloaded file replaced the running executable.
    Replaced(Result<(), String>),
    /// Whether the new executable was started.
    Relaunched(Result<(), String>),
    /// A request could not be made at all; the text says why.
    RequestFailed(String),
}

/// What the caller does next.
#[derive(Debug, Clone, Copy, PartialEq, Eq, Structural)]
pub enum UpdateAction {
    /// Ask for the package's size.
    FetchPackageInfo,
    /// Ask for the bytes `first..=last` of the package.
    FetchChunk { first: u64, last: u64 },
    /// Append the answer's body to the downloaded file.
    WriteChunk,
    /// Rename the downloaded file over the running executable.
    Replace,
    /// Start the new executable.
    Relaunch,
    /// Finished well.
    Finish(UpdateOutcome),
    /// Stopped before the executable was touched: carry on with it.
    Abort,
    /// Stopped during or after the replacement: the executable may be broken.
    Fatal,
    /// The event did not fit the stage; nothing to do.
    Ignore,
}

/// Where the self-update stands.
#[derive(Debug, Clone, Copy, PartialEq, Eq, Structural)]
pub enum UpdateStage {
    CheckingVersion,
    FetchingInfo,
    Fetching(ChunkedDownload),
    Writing(ChunkedDownload),
    Replacing,
    Relaunching,
    Done,
}

/// One step's output: commands for the window, the next action, and the
/// text of the error that stopped the update, if one did.
#[derive(Debug)]
pub struct UpdateStep {
    pub commands: Vec<Command>,
    pub action: UpdateAction,
    pub error: Option<String>,
}

/// The text of an error, as a value.
pub open spec fn error_view(e: Option<String>) -> Option<Seq<char>> {
    match e {
        Some(s) => Some(s@),
        None => None,
    }
}

/// Whether the launcher must update: the server's version text differs, in
/// any character, from the local version. An answer that is not 2xx is an
/// error.
pub fn need_update(local_version: &str, status: u16, server_version: &str) -> (r: Result<
    bool,
    String,
>)
    ensures
        is_success(status) ==> r == Ok::<bool, String>(server_version@ != local_version@),
        !is_success(status) ==> r is Err && r->Err_0@ == download_error_text(
            DownloadError::ServerError(status),
        ),
{
    if !status_is_success(status) {
        return Err(DownloadError::ServerError(status).message());
    }
    let local = String::from_str(local_version);
    let server = String::from_str(server_version);
    Ok(!(server == local))
}

/// The next chunk of a session, or the replacement once none is left.
pub open spec fn next_update_download(dl: ChunkedDownload) -> (UpdateStage, Seq<Command>, UpdateAction) {
    if dl.pending().len() == 0 {
        (UpdateStage::Replacing, Seq::empty(), UpdateAction::Replace)
    } else {
        (
            UpdateStage::Fetching(dl.advanced()),
            seq![Command::Data(UpdateData { downloaded: dl.pending()[0].0 as u64, size: dl.total() })],
            UpdateAction::FetchChunk {
                first: dl.pending()[0].0 as u64,
                last: dl.pending()[0].1 as u64,
            },
        )
    }
}

/// A stop before the replacement: the window closes, the old executable stays.
pub open spec fn aborted(message: Seq<char>) -> (UpdateStage, Seq<Command>, UpdateAction, Option<Seq<char>>) {
    (UpdateStage::Done, seq![Command::Abort], UpdateAction::Abort, Some(message))
}

/// A stop during or after the replacement.
pub open spec fn fatal(message: Seq<char>) -> (UpdateStage, Seq<Command>, UpdateAction, Option<Seq<char>>) {
    (UpdateStage::Done, seq![Command::Abort], UpdateAction::Fatal, Some(message))
}

/// A step without error text.
pub open spec fn quiet(t: (UpdateStage, Seq<Command>, UpdateAction)) -> (UpdateStage, Seq<Command>, UpdateAction, Option<Seq<char>>) {
    (t.0, t.1, t.2, None)
}

/// One transition, given the local version: the next stage, the commands
/// emitted, the next action, and the error text if the update stopped.
pub open spec fn update_step(s: UpdateStage, local_version: Seq<char>, e: UpdateEvent) -> (
    UpdateStage,
    Seq<Command>,
    UpdateAction,
    Option<Seq<char>>,
) {
    match s {
        UpdateStage::CheckingVersion => match e {
            UpdateEvent::VersionFetched { status, text } => if !is_success(status) {
                aborted(download_error_text(DownloadError::ServerError(status)))
            } else if text@ == local_version {
                quiet(
                    (
                        UpdateStage::Done,
                        seq![Command::Completed],
                        UpdateAction::Finish(UpdateOutcome::NoUpdateNeeded),
                    ),
                )
            } else {
                quiet((UpdateStage::FetchingInfo, Seq::empty(), UpdateAction::FetchPackageInfo))
            },
            UpdateEvent::RequestFailed(m) => aborted(m@),
            _ => quiet((s, Seq::empty(), UpdateAction::Ignore)),
        },
        UpdateStage::FetchingInfo => match e {
            UpdateEvent::PackageInfo { status, content_length } => if !is_success(status) {
                aborted(download_error_text(DownloadError::ServerError(status)))
            } else if content_length is None {
                aborted(download_error_text(DownloadError::ContentLengthMissing))
            } else {
                quiet(
                    next_update_download(
                        ChunkedDownload::fresh(content_length.unwrap(), LAUNCHER_CHUNK_SIZE),
                    ),
                )
            },
            UpdateEvent::RequestFailed(m) => aborted(m@),
            _ => quiet((s, Seq::empty(), UpdateAction::Ignore)),
        },
        UpdateStage::Fetching(dl) => match e {
            UpdateEvent::ChunkReceived { status } => if is_success(status) {
                quiet((UpdateStage::Writing(dl), Seq::empty(), UpdateAction::WriteChunk))
            } else {
                aborted(download_error_text(DownloadError::ServerError(status)))
            },
            UpdateEvent::RequestFailed(m) => aborted(m@),
            _ => quiet((s, Seq::empty(), UpdateAction::Ignore)),
        },
        UpdateStage::Writing(dl) => match e {
            UpdateEvent::ChunkWritten(Err(m)) => aborted(m@),
            UpdateEvent::ChunkWritten(Ok(_)) => quiet(next_update_download(dl)),
            _ => quiet((s, Seq::empty(), UpdateAction::Ignore)),
        },
        UpdateStage::Replacing => match e {
            UpdateEvent::Replaced(Err(m)) => fatal(m@),
            UpdateEvent::Replaced(Ok(_)) => quiet(
                (UpdateStage::Relaunching, Seq::empty(), UpdateAction::Relaunch),
            ),
            _ => quiet((s, Seq::empty(), UpdateAction::Ignore)),
        },
        UpdateStage::Relaunching => match e {
            UpdateEvent::Relaunched(Err(m)) => fatal(m@),
            UpdateEvent::Relaunched(Ok(_)) => quiet(
                (
                    UpdateStage::Done,
                    seq![Command::Completed],
                    UpdateAction::Finish(UpdateOutcome::Updated),
                ),
            ),
            _ => quiet((s, Seq::empty(), UpdateAction::Ignore)),
        },
        UpdateStage::Done => quiet((s, Seq::empty(), UpdateAction::Ignore)),
    }
}

/// The actions asked for over a sequence of events.
pub open spec fn update_actions(s: UpdateStage, local_version: Seq<char>, events: Seq<UpdateEvent>) -> Seq<UpdateAction>
    decreases events.len(),
{
    if events.len() == 0 {
        Seq::empty()
    } else {
        let t = update_step(s, local_version, events[0]);
        seq![t.2] + update_actions(t.0, local_version, events.drop_first())
    }
}

fn update_out(stage: UpdateStage, commands: Vec<Command>, action: UpdateAction, error: Option<String>) -> (r: (UpdateStage, UpdateStep))
    ensures
        r.0 == stage,
        r.1.commands@ == commands@,
        r.1.action == action,
        r.1.error == error,
{
    (stage, UpdateStep { commands, action, error })
}

fn abort_out(message: String) -> (r: (UpdateStage, UpdateStep))
    ensures
        (r.0, r.1.commands@, r.1.action, error_view(r.1.error)) == aborted(message@),
{
    let cmds = vec![Command::Abort];
    assert(cmds@ =~= seq![Command::Abort]);
    update_out(UpdateStage::Done, cmds, UpdateAction::Abort, Some(message))
}

fn fatal_out(message: String) -> (r: (UpdateStage, UpdateStep))
    ensures
        (r.0, r.1.commands@, r.1.action, error_view(r.1.error)) == fatal(message@),
{
    let cmds = vec![Command::Abort];
    assert(cmds@ =~= seq![Command::Abort]);
    update_out(UpdateStage::Done, cmds, UpdateAction::Fatal, Some(message))
}

fn quiet_out(stage: UpdateStage, commands: Vec<Command>, action: UpdateAction) -> (r: (UpdateStage, UpdateStep))
    ensures
        (r.0, r.1.commands@, r.1.action, error_view(r.1.error)) == quiet(
            (stage, commands@, action),
        ),
{
    update_out(stage, commands, action, None)
}

fn next_update_out(dl: ChunkedDownload) -> (r: (UpdateStage, UpdateStep))
    ensures
        (r.0, r.1.commands@, r.1.action, error_view(r.1.error)) == quiet(next_update_download(dl)),
{
    let mut dl = dl;
    match dl.next_chunk() {
        None => quiet_out(UpdateStage::Replacing, Vec::new(), UpdateAction::Replace),
        Some(chunk) => {
            let cmds = vec![Command::Data(UpdateData { downloaded: chunk.downloaded, size: chunk.total })];
            assert(cmds@ =~= seq![
                Command::Data(UpdateData { downloaded: chunk.downloaded, size: chunk.total }),
            ]);
            quiet_out(
                UpdateStage::Fetching(dl),
                cmds,
                UpdateAction::FetchChunk { first: chunk.first, last: chunk.last },
            )
        },
    }
}

/// The self-update pipeline, with the version of the running launcher.
#[derive(Debug)]
pub struct SelfUpdate {
    stage: UpdateStage,
    local_version: String,
}

impl SelfUpdate {
    /// Where the self-update stands.
    pub closed spec fn stage(self) -> UpdateStage {
        self.stage
    }

    /// The version of the running launcher.
    pub closed spec fn local_version(self) -> Seq<char> {
        self.local_version@
    }

    /// A self-update of a launcher at `local_version`; the caller first asks
    /// the server for its version.
    pub fn new(local_version: &str) -> (r: Self)
        ensures
            r.stage() == UpdateStage::CheckingVersion,
            r.local_version() == local_version@,
    {
        SelfUpdate { stage: UpdateStage::CheckingVersion, local_version: String::from_str(local_version) }
    }

    /// Whether the self-update is over.
    pub fn is_done(&self) -> (r: bool)
        ensures
            r == (self.stage() == UpdateStage::Done),
    {
        match self.stage {
            UpdateStage::Done => true,
            _ => false,
        }
    }

    /// Takes what came of the last action; returns the commands for the
    /// window, the next action, and the error text if the update stopped.
    pub fn step(&mut self, event: UpdateEvent) -> (r: UpdateStep)
        ensures
            final(self).local_version() == old(self).local_version(),
            (final(self).stage(), r.commands@, r.action, error_view(r.error)) == update_step(
                old(self).stage(),
                old(self).local_version(),
                event,
            ),
    {
        let stage = self.stage;
        let (next, out) = match stage {
            UpdateStage::CheckingVersion => match event {
                UpdateEvent::VersionFetched { status, text } => {
                    match need_update(self.local_version.as_str(), status, text.as_str()) {
                        Err(m) => abort_out(m),
                        Ok(false) => {
                            let cmds = vec![Command::Completed];
                            assert(cmds@ =~= seq![Command::Completed]);
                            quiet_out(
                                UpdateStage::Done,
                                cmds,
                                UpdateAction::Finish(UpdateOutcome::NoUpdateNeeded),
                            )
                        },
                        Ok(true) => quiet_out(
                            UpdateStage::FetchingInfo,
                            Vec::new(),
                            UpdateAction::FetchPackageInfo,
                        ),
                    }
                },
                UpdateEvent::RequestFailed(m) => abort_out(m),
                _ => quiet_out(stage, Vec::new(), UpdateAction::Ignore),
            },
            UpdateStage::FetchingInfo => match event {
                UpdateEvent::PackageInfo { status, content_length } => {
                    match ChunkedDownload::start(status, content_length, LAUNCHER_CHUNK_SIZE) {
                        Err(e) => abort_out(e.message()),
                        Ok(dl) => next_update_out(dl),
                    }
                },
                UpdateEvent::RequestFailed(m) => abort_out(m),
                _ => quiet_out(stage, Vec::new(), UpdateAction::Ignore),
            },
            UpdateStage::Fetching(dl) => match event {
                UpdateEvent::ChunkReceived { status } => {
                    match ChunkedDownload::check_response(status) {
                        Err(e) => abort_out(e.message()),
                        Ok(()) => quiet_out(UpdateStage::Writing(dl), Vec::new(), UpdateAction::WriteChunk),
                    }
                },
                UpdateEvent::RequestFailed(m) => abort_out(m),
                _ => quiet_out(stage, Vec::new(), UpdateAction::Ignore),
            },
            UpdateStage::Writing(dl) => match event {
                UpdateEvent::ChunkWritten(Err(m)) => abort_out(m),
                UpdateEvent::ChunkWritten(Ok(_)) => next_update_out(dl),
                _ => quiet_out(stage, Vec::new(), UpdateAction::Ignore),
            },
            UpdateStage::Replacing => match event {
                UpdateEvent::Replaced(Err(m)) => fatal_out(m),
                UpdateEvent::Replaced(Ok(_)) => quiet_out(
                    UpdateStage::Relaunching,
                    Vec::new(),
                    UpdateAction::Relaunch,
                ),
                _ => quiet_out(stage, Vec::new(), UpdateAction::Ignore),
            },
            UpdateStage::Relaunching => match event {
                UpdateEvent::Relaunched(Err(m)) => fatal_out(m),
                UpdateEvent::Relaunched(Ok(_)) => {
                    let cmds = vec![Command::Completed];
                    assert(cmds@ =~= seq![Command::Completed]);
                    quiet_out(UpdateStage::Done, cmds, UpdateAction::Finish(UpdateOutcome::Updated))
                },
                _ => quiet_out(stage, Vec::new(), UpdateAction::Ignore),
            },
            UpdateStage::Done => quiet_out(stage, Vec::new(), UpdateAction::Ignore),
        };
        self.stage = next;
        out
    }
}

proof fn lemma_done_stays_idle(local_version: Seq<char>, events: Seq<UpdateEvent>)
    ensures
        forall|i: int|
            0 <= i < events.len() ==> #[trigger] update_actions(
                UpdateStage::Done,
                local_version,
                events,
            )[i] == UpdateAction::Ignore,
        update_actions(UpdateStage::Done, local_version, events).len() == events.len(),
    decreases events.len(),
{
    if events.len() > 0 {
        lemma_done_stays_idle(local_version, events.drop_first());
        let rest = update_actions(UpdateStage::Done, local_version, events.drop_first());
        assert(update_actions(UpdateStage::Done, local_version, events) == seq![UpdateAction::Ignore]
            + rest);
        assert forall|i: int| 0 <= i < events.len() implies #[trigger] update_actions(
            UpdateStage::Done,
            local_version,
            events,
        )[i] == UpdateAction::Ignore by {
            if i > 0 {
                assert(update_actions(UpdateStage::Done, local_version, events)[i] == rest[i - 1]);
            }
        }
    }
}

/// When the server's version text equals the local version exactly, the
/// self-update completes with no update needed, and whatever events follow,
/// it never asks for the package: neither its size nor any chunk.
pub proof fn lemma_same_version_never_downloads(
    local_version: Seq<char>,
    status: u16,
    server_version: String,
    later: Seq<UpdateEvent>,
)
    requires
        is_success(status),
        server_version@ == local_version,
    ensures
        update_step(
            UpdateStage::CheckingVersion,
            local_version,
            UpdateEvent::VersionFetched { status, text: server_version },
        ) == quiet(
            (
                UpdateStage::Done,
                seq![Command::Completed],
                UpdateAction::Finish(UpdateOutcome::NoUpdateNeeded),
            ),
        ),
        forall|i: int|
            0 <= i < later.len() ==> !(#[trigger] update_actions(
                UpdateStage::Done,
                local_version,
                later,
            )[i] is FetchPackageInfo) && !(update_actions(
                UpdateStage::Done,
                local_version,
                later,
            )[i] is FetchChunk),
{
    lemma_done_stays_idle(local_version, later);
}

} // verus!
