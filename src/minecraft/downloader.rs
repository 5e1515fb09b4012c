//! The game-update pipeline: validate the local files, download and extract
//! the package when they are stale, then prepare, launch and wait for the
//! game. Each step is a pure transition; the caller performs the action it
//! names and hands back what came of it.
use vstd::prelude::*;
use crate::download::{
    download_error_text, is_success, length_ranges, ChunkedDownload, DownloadError,
};
use crate::launcher::commands::{command_views, Command, CommandView};

pub use crate::download::PartialRangeIter;

verus! {

/// Chunk size of the game package download, in bytes.
pub const GAME_CHUNK_SIZE: u32 = 1000 * 1024;

/// What came of the last action.
#[derive(Debug, PartialEq, Eq)]
pub enum GameEvent {
    /// The integrity check: whether the files are current, or why it failed.
    Validated(Result<bool, String>),
    /// The answer to the package size request.
    PackageInfo { status: u16, content_length: Option<u64> },
    /// The status of the answer to the current ranged request.
    ChunkReceived { status: u16 },
    /// Whether the current chunk was appended to the package file.
    ChunkWritten(Result<(), String>),
    /// Whether the package was extracted.
    Extracted(Result<(), String>),
    /// Whether the game's launch description was read.
    Prepared(Result<(), String>),
    /// Whether the game process started.
    Launched(Result<(), String>),
    /// Whether waiting for the game process succeeded.
    Exited(Result<(), String>),
    /// A request for the package could not be made; the text says why.
    RequestFailed(String),
}

/// What the caller does next.
#[derive(Debug, Clone, Copy, PartialEq, Eq, Structural)]
pub enum GameAction {
    /// Check the local files against the server's checksum.
    Validate,
    /// Ask for the package's size.
    FetchPackageInfo,
    /// Ask for the bytes `first..=last` of the package.
    FetchChunk { first: u64, last: u64 },
    /// Append the answer's body to the package file.
    WriteChunk,
    /// Extract the package into the installation directory.
    Extract,
    /// Read the game's launch description.
    Prepare,
    /// Start the game process.
    Launch,
    /// Wait until the game process ends.
    WaitForExit,
    /// The run is over: tell the control thread to continue.
    Finish,
    /// The event did not fit the stage; nothing to do.
    Ignore,
}

/// Where the pipeline stands.
#[derive(Debug, Clone, Copy, PartialEq, Eq, Structural)]
pub enum GameStage {
    Validating,
    FetchingInfo,
    Fetching(ChunkedDownload),
    Writing(ChunkedDownload),
    Extracting,
    Preparing,
    Launching,
    Running,
    Finished,
}

/// One step's output: commands for the interface, and the next action.
#[derive(Debug)]
pub struct GameStep {
    pub commands: Vec<Command>,
    pub action: GameAction,
}

/// Message when the integrity check could not be made.
pub open spec fn validation_failed_text() -> Seq<char> {
    "Couldn't connect to update server. Check your internet connection."@
}

/// Start of the message when the package could not be downloaded or extracted.
pub open spec fn download_failed_prefix() -> Seq<char> {
    "Error while connecting to update server: "@
}

/// Start of the message when the launch description could not be read.
pub open spec fn prepare_failed_prefix() -> Seq<char> {
    "Error while initializing minecraft: "@
}

/// Start of the message when the game process could not start.
pub open spec fn launch_failed_prefix() -> Seq<char> {
    "Error while launching minecraft: "@
}

/// Start of the message when waiting for the game process failed.
pub open spec fn wait_failed_prefix() -> Seq<char> {
    "Error while waiting for the game to close: "@
}

/// The end of a failed run: the error, then back to idle.
pub open spec fn failure(message: Seq<char>) -> (GameStage, Seq<CommandView>, GameAction) {
    (
        GameStage::Finished,
        seq![CommandView::Error { message }, CommandView::Continue],
        GameAction::Finish,
    )
}

/// No change.
pub open spec fn ignored(s: GameStage) -> (GameStage, Seq<CommandView>, GameAction) {
    (s, Seq::empty(), GameAction::Ignore)
}

/// The next chunk of a session, or the extraction once none is left.
pub open spec fn next_download(dl: ChunkedDownload) -> (GameStage, Seq<CommandView>, GameAction) {
    if dl.pending().len() == 0 {
        (GameStage::Extracting, seq![CommandView::Unzipping], GameAction::Extract)
    } else {
        (
            GameStage::Fetching(dl.advanced()),
            seq![CommandView::Download { downloaded: dl.pending()[0].0 as u64, total: dl.total() }],
            GameAction::FetchChunk {
                first: dl.pending()[0].0 as u64,
                last: dl.pending()[0].1 as u64,
            },
        )
    }
}

/// One transition: the next stage, the commands emitted, the next action.
pub open spec fn game_step(s: GameStage, e: GameEvent) -> (GameStage, Seq<CommandView>, GameAction) {
    match s {
        GameStage::Validating => match e {
            GameEvent::Validated(Err(_)) => failure(validation_failed_text()),
            GameEvent::Validated(Ok(true)) => (
                GameStage::Preparing,
                seq![CommandView::Play],
                GameAction::Prepare,
            ),
            GameEvent::Validated(Ok(false)) => (
                GameStage::FetchingInfo,
                Seq::empty(),
                GameAction::FetchPackageInfo,
            ),
            _ => ignored(s),
        },
        GameStage::FetchingInfo => match e {
            GameEvent::PackageInfo { status, content_length } => if !is_success(status) {
                failure(
                    download_failed_prefix() + download_error_text(
                        DownloadError::ServerError(status),
                    ),
                )
            } else if content_length is None {
                failure(
                    download_failed_prefix() + download_error_text(
                        DownloadError::ContentLengthMissing,
                    ),
                )
            } else {
                next_download(ChunkedDownload::fresh(content_length.unwrap(), GAME_CHUNK_SIZE))
            },
            GameEvent::RequestFailed(m) => failure(download_failed_prefix() + m@),
            _ => ignored(s),
        },
        GameStage::Fetching(dl) => match e {
            GameEvent::ChunkReceived { status } => if is_success(status) {
                (GameStage::Writing(dl), Seq::empty(), GameAction::WriteChunk)
            } else {
                failure(
                    download_failed_prefix() + download_error_text(
                        DownloadError::ServerError(status),
                    ),
                )
            },
            GameEvent::RequestFailed(m) => failure(download_failed_prefix() + m@),
            _ => ignored(s),
        },
        GameStage::Writing(dl) => match e {
            GameEvent::ChunkWritten(Err(m)) => failure(download_failed_prefix() + m@),
            GameEvent::ChunkWritten(Ok(_)) => next_download(dl),
            _ => ignored(s),
        },
        GameStage::Extracting => match e {
            GameEvent::Extracted(Err(m)) => failure(download_failed_prefix() + m@),
            GameEvent::Extracted(Ok(_)) => (
                GameStage::Preparing,
                seq![CommandView::Play],
                GameAction::Prepare,
            ),
            _ => ignored(s),
        },
        GameStage::Preparing => match e {
            GameEvent::Prepared(Err(m)) => failure(prepare_failed_prefix() + m@),
            GameEvent::Prepared(Ok(_)) => (GameStage::Launching, Seq::empty(), GameAction::Launch),
            _ => ignored(s),
        },
        GameStage::Launching => match e {
            GameEvent::Launched(Err(m)) => failure(launch_failed_prefix() + m@),
            GameEvent::Launched(Ok(_)) => (GameStage::Running, Seq::empty(), GameAction::WaitForExit),
            _ => ignored(s),
        },
        GameStage::Running => match e {
            GameEvent::Exited(Err(m)) => failure(wait_failed_prefix() + m@),
            GameEvent::Exited(Ok(_)) => (
                GameStage::Finished,
                seq![CommandView::Continue],
                GameAction::Finish,
            ),
            _ => ignored(s),
        },
        GameStage::Finished => ignored(s),
    }
}

/// The stage reached and the commands emitted over a sequence of events.
pub open spec fn game_run(s: GameStage, events: Seq<GameEvent>) -> (GameStage, Seq<CommandView>)
    decreases events.len(),
{
    if events.len() == 0 {
        (s, Seq::empty())
    } else {
        let first = game_step(s, events[0]);
        let rest = game_run(first.0, events.drop_first());
        (rest.0, first.1 + rest.1)
    }
}

fn error_command(prefix: &str, message: &str) -> (r: Vec<Command>)
    ensures
        command_views(r@) == seq![
            CommandView::Error { message: prefix@ + message@ },
            CommandView::Continue,
        ],
{
    let text = String::from_str(prefix).concat(message);
    let r = vec![Command::Error { message: text }, Command::Continue];
    assert(command_views(r@) =~= seq![
        CommandView::Error { message: prefix@ + message@ },
        CommandView::Continue,
    ]);
    r
}

fn fail_step(prefix: &str, message: &str) -> (r: (GameStage, GameStep))
    ensures
        (r.0, command_views(r.1.commands@), r.1.action) == failure(prefix@ + message@),
{
    (GameStage::Finished, GameStep { commands: error_command(prefix, message), action: GameAction::Finish })
}

fn plain_step(stage: GameStage, commands: Vec<Command>, action: GameAction) -> (r: (GameStage, GameStep))
    ensures
        r.0 == stage,
        r.1.commands@ == commands@,
        r.1.action == action,
{
    (stage, GameStep { commands, action })
}

fn next_download_step(dl: ChunkedDownload) -> (r: (GameStage, GameStep))
    ensures
        (r.0, command_views(r.1.commands@), r.1.action) == next_download(dl),
{
    let mut dl = dl;
    match dl.next_chunk() {
        None => {
            let cmds = vec![Command::Unzipping];
            assert(command_views(cmds@) =~= seq![CommandView::Unzipping]);
            plain_step(GameStage::Extracting, cmds, GameAction::Extract)
        },
        Some(chunk) => {
            let cmds = vec![Command::Download { downloaded: chunk.downloaded, total: chunk.total }];
            assert(command_views(cmds@) =~= seq![
                CommandView::Download { downloaded: chunk.downloaded, total: chunk.total },
            ]);
            plain_step(
                GameStage::Fetching(dl),
                cmds,
                GameAction::FetchChunk { first: chunk.first, last: chunk.last },
            )
        },
    }
}

fn download_failure(e: DownloadError) -> (r: (GameStage, GameStep))
    ensures
        (r.0, command_views(r.1.commands@), r.1.action) == failure(
            download_failed_prefix() + download_error_text(e),
        ),
{
    let text = e.message();
    fail_step("Error while connecting to update server: ", text.as_str())
}

/// The game-update pipeline.
#[derive(Debug, Clone, Copy, PartialEq, Eq, Structural)]
pub struct GameUpdate {
    stage: GameStage,
}

impl GameUpdate {
    /// Where the pipeline stands.
    pub closed spec fn stage(self) -> GameStage {
        self.stage
    }

    /// Starts a run: the interface is told that files are being checked, and
    /// the caller checks them.
    pub fn start() -> (r: (Self, GameStep))
        ensures
            r.0.stage() == GameStage::Validating,
            command_views(r.1.commands@) == seq![CommandView::Validate],
            r.1.action == GameAction::Validate,
    {
        let cmds = vec![Command::Validate];
        assert(command_views(cmds@) =~= seq![CommandView::Validate]);
        (GameUpdate { stage: GameStage::Validating }, GameStep { commands: cmds, action: GameAction::Validate })
    }

    /// Whether the run is over.
    pub fn is_finished(&self) -> (r: bool)
        ensures
            r == (self.stage() == GameStage::Finished),
    {
        match self.stage {
            GameStage::Finished => true,
            _ => false,
        }
    }

    /// Takes what came of the last action; returns the commands for the
    /// interface and the next action.
    pub fn step(&mut self, event: GameEvent) -> (r: GameStep)
        ensures
            (final(self).stage(), command_views(r.commands@), r.action) == game_step(
                old(self).stage(),
                event,
            ),
    {
        let stage = self.stage;
        let (next, out) = match stage {
            GameStage::Validating => match event {
                GameEvent::Validated(Err(_)) => {
                    proof {
                        reveal_strlit("");
                    }
                    let r = fail_step(
                        "Couldn't connect to update server. Check your internet connection.",
                        "",
                    );
                    assert(validation_failed_text() + ""@ =~= validation_failed_text());
                    r
                },
                GameEvent::Validated(Ok(true)) => {
                    let cmds = vec![Command::Play];
                    assert(command_views(cmds@) =~= seq![CommandView::Play]);
                    plain_step(GameStage::Preparing, cmds, GameAction::Prepare)
                },
                GameEvent::Validated(Ok(false)) => {
                    let cmds: Vec<Command> = Vec::new();
                    assert(command_views(cmds@) =~= Seq::<CommandView>::empty());
                    plain_step(GameStage::FetchingInfo, cmds, GameAction::FetchPackageInfo)
                },
                _ => ignore_step(stage),
            },
            GameStage::FetchingInfo => match event {
                GameEvent::PackageInfo { status, content_length } => {
                    match ChunkedDownload::start(status, content_length, GAME_CHUNK_SIZE) {
                        Err(e) => download_failure(e),
                        Ok(dl) => next_download_step(dl),
                    }
                },
                GameEvent::RequestFailed(m) => fail_step(
                    "Error while connecting to update server: ",
                    m.as_str(),
                ),
                _ => ignore_step(stage),
            },
            GameStage::Fetching(dl) => match event {
                GameEvent::ChunkReceived { status } => {
                    match ChunkedDownload::check_response(status) {
                        Err(e) => download_failure(e),
                        Ok(()) => {
                            let cmds: Vec<Command> = Vec::new();
                            assert(command_views(cmds@) =~= Seq::<CommandView>::empty());
                            plain_step(GameStage::Writing(dl), cmds, GameAction::WriteChunk)
                        },
                    }
                },
                GameEvent::RequestFailed(m) => fail_step(
                    "Error while connecting to update server: ",
                    m.as_str(),
                ),
                _ => ignore_step(stage),
            },
            GameStage::Writing(dl) => match event {
                GameEvent::ChunkWritten(Err(m)) => fail_step(
                    "Error while connecting to update server: ",
                    m.as_str(),
                ),
                GameEvent::ChunkWritten(Ok(_)) => next_download_step(dl),
                _ => ignore_step(stage),
            },
            GameStage::Extracting => match event {
                GameEvent::Extracted(Err(m)) => fail_step(
                    "Error while connecting to update server: ",
                    m.as_str(),
                ),
                GameEvent::Extracted(Ok(_)) => {
                    let cmds = vec![Command::Play];
                    assert(command_views(cmds@) =~= seq![CommandView::Play]);
                    plain_step(GameStage::Preparing, cmds, GameAction::Prepare)
                },
                _ => ignore_step(stage),
            },
            GameStage::Preparing => match event {
                GameEvent::Prepared(Err(m)) => fail_step(
                    "Error while initializing minecraft: ",
                    m.as_str(),
                ),
                GameEvent::Prepared(Ok(_)) => {
                    let cmds: Vec<Command> = Vec::new();
                    assert(command_views(cmds@) =~= Seq::<CommandView>::empty());
                    plain_step(GameStage::Launching, cmds, GameAction::Launch)
                },
                _ => ignore_step(stage),
            },
            GameStage::Launching => match event {
                GameEvent::Launched(Err(m)) => fail_step(
                    "Error while launching minecraft: ",
                    m.as_str(),
                ),
                GameEvent::Launched(Ok(_)) => {
                    let cmds: Vec<Command> = Vec::new();
                    assert(command_views(cmds@) =~= Seq::<CommandView>::empty());
                    plain_step(GameStage::Running, cmds, GameAction::WaitForExit)
                },
                _ => ignore_step(stage),
            },
            GameStage::Running => match event {
                GameEvent::Exited(Err(m)) => fail_step(
                    "Error while waiting for the game to close: ",
                    m.as_str(),
                ),
                GameEvent::Exited(Ok(_)) => {
                    let cmds = vec![Command::Continue];
                    assert(command_views(cmds@) =~= seq![CommandView::Continue]);
                    plain_step(GameStage::Finished, cmds, GameAction::Finish)
                },
                _ => ignore_step(stage),
            },
            GameStage::Finished => ignore_step(stage),
        };
        self.stage = next;
        out
    }
}

fn ignore_step(stage: GameStage) -> (r: (GameStage, GameStep))
    ensures
        (r.0, command_views(r.1.commands@), r.1.action) == ignored(stage),
{
    let cmds: Vec<Command> = Vec::new();
    assert(command_views(cmds@) =~= Seq::<CommandView>::empty());
    plain_step(stage, cmds, GameAction::Ignore)
}

/// The events of `k` chunks, each answered with `status` and written.
pub open spec fn chunk_events(k: nat, status: u16) -> Seq<GameEvent>
    decreases k,
{
    if k == 0 {
        Seq::empty()
    } else {
        seq![GameEvent::ChunkReceived { status }, GameEvent::ChunkWritten(Ok(()))] + chunk_events(
            (k - 1) as nat,
            status,
        )
    }
}

/// The progress commands for the spans of a download of `total` bytes, one
/// before each span is fetched.
pub open spec fn progress_commands(spans: Seq<(int, int)>, total: u64) -> Seq<CommandView> {
    spans.map_values(|r: (int, int)| CommandView::Download { downloaded: r.0 as u64, total })
}

/// The events of a run whose local files are stale and whose package of
/// `length` bytes downloads and extracts without error, every answer having
/// the status `status`.
pub open spec fn stale_run_events(length: u64, status: u16) -> Seq<GameEvent> {
    seq![
        GameEvent::Validated(Ok(false)),
        GameEvent::PackageInfo { status, content_length: Some(length) },
    ] + chunk_events(length_ranges(length as int, GAME_CHUNK_SIZE as int).len(), status) + seq![
        GameEvent::Extracted(Ok(())),
    ]
}

proof fn lemma_run_one(s: GameStage, e: GameEvent, rest: Seq<GameEvent>)
    ensures
        game_run(s, seq![e] + rest) == (game_run(game_step(s, e).0, rest).0, game_step(s, e).1
            + game_run(game_step(s, e).0, rest).1),
{
    let es = seq![e] + rest;
    assert(es[0] == e);
    assert(es.drop_first() =~= rest);
}

proof fn lemma_run_concat(s: GameStage, a: Seq<GameEvent>, b: Seq<GameEvent>)
    ensures
        game_run(s, a + b) == (game_run(game_run(s, a).0, b).0, game_run(s, a).1 + game_run(
            game_run(s, a).0,
            b,
        ).1),
    decreases a.len(),
{
    if a.len() == 0 {
        assert(a + b =~= b);
        assert(game_run(s, a).1 + game_run(s, b).1 =~= game_run(s, b).1);
    } else {
        let f = game_step(s, a[0]);
        lemma_run_concat(f.0, a.drop_first(), b);
        assert((a + b).drop_first() =~= a.drop_first() + b);
        assert((a + b)[0] == a[0]);
        let x = game_run(f.0, a.drop_first());
        let y = game_run(x.0, b);
        assert(f.1 + (x.1 + y.1) =~= (f.1 + x.1) + y.1);
    }
}

proof fn lemma_writing_loop(dl: ChunkedDownload, status: u16)
    requires
        is_success(status),
    ensures
        game_run(
            GameStage::Writing(dl),
            seq![GameEvent::ChunkWritten(Ok(()))] + chunk_events(dl.pending().len(), status),
        ) == (GameStage::Extracting, progress_commands(dl.pending(), dl.total()) + seq![
            CommandView::Unzipping,
        ]),
    decreases dl.pending().len(),
{
    dl.lemma_advanced();
    let p = dl.pending();
    let k = p.len();
    let written = GameEvent::ChunkWritten(Ok(()));
    let received = GameEvent::ChunkReceived { status };
    if k == 0 {
        lemma_run_one(GameStage::Writing(dl), written, Seq::empty());
        assert(seq![written] + chunk_events(0, status) =~= seq![written] + Seq::empty());
        assert(progress_commands(p, dl.total()) =~= Seq::<CommandView>::empty());
        assert(seq![CommandView::Unzipping] + Seq::<CommandView>::empty() =~= progress_commands(
            p,
            dl.total(),
        ) + seq![CommandView::Unzipping]);
    } else {
        let d2 = dl.advanced();
        let tail = seq![written] + chunk_events((k - 1) as nat, status);
        lemma_writing_loop(d2, status);
        assert(chunk_events(k, status) == seq![received, written] + chunk_events(
            (k - 1) as nat,
            status,
        ));
        let rest = seq![received] + tail;
        assert(seq![written] + chunk_events(k, status) =~= seq![written] + rest);
        lemma_run_one(GameStage::Writing(dl), written, rest);
        lemma_run_one(GameStage::Fetching(d2), received, tail);
        let first = CommandView::Download { downloaded: p[0].0 as u64, total: dl.total() };
        assert(progress_commands(p, dl.total()) =~= seq![first] + progress_commands(
            p.drop_first(),
            dl.total(),
        ));
        assert(seq![first] + (Seq::<CommandView>::empty() + (progress_commands(
            p.drop_first(),
            dl.total(),
        ) + seq![CommandView::Unzipping])) =~= progress_commands(p, dl.total()) + seq![
            CommandView::Unzipping,
        ]);
    }
}

/// With stale local files and a download that succeeds, the interface sees
/// exactly `Validate`, then one `Download` per chunk (the offset about to be
/// fetched, and the package size), then `Unzipping`, then `Play`; the
/// pipeline then prepares the launch.
pub proof fn lemma_stale_files_commands(length: u64, status: u16)
    requires
        is_success(status),
    ensures
        game_run(GameStage::Validating, stale_run_events(length, status)).0 == GameStage::Preparing,
        seq![CommandView::Validate] + game_run(
            GameStage::Validating,
            stale_run_events(length, status),
        ).1 == seq![CommandView::Validate] + progress_commands(
            length_ranges(length as int, GAME_CHUNK_SIZE as int),
            length,
        ) + seq![CommandView::Unzipping, CommandView::Play],
{
    let fresh = ChunkedDownload::fresh(length, GAME_CHUNK_SIZE);
    ChunkedDownload::lemma_fresh(length, GAME_CHUNK_SIZE);
    fresh.lemma_advanced();
    let p = fresh.pending();
    let k = p.len();
    let info = GameEvent::PackageInfo { status, content_length: Some(length) };
    let stale = GameEvent::Validated(Ok(false));
    let extracted = GameEvent::Extracted(Ok(()));
    let a = seq![stale, info];
    let b = chunk_events(k, status);
    let c = seq![extracted];
    assert(stale_run_events(length, status) == a + b + c);
    lemma_run_concat(GameStage::Validating, a + b, c);
    lemma_run_concat(GameStage::Validating, a, b);
    assert(a =~= seq![stale] + seq![info]);
    lemma_run_one(GameStage::Validating, stale, seq![info]);
    assert(seq![info] =~= seq![info] + Seq::<GameEvent>::empty());
    lemma_run_one(GameStage::FetchingInfo, info, Seq::empty());
    assert(c =~= seq![extracted] + Seq::<GameEvent>::empty());
    lemma_run_one(GameStage::Extracting, extracted, Seq::empty());
    let unzip = seq![CommandView::Unzipping];
    let play = seq![CommandView::Play];
    if k == 0 {
        assert(b =~= Seq::<GameEvent>::empty());
        assert(progress_commands(p, length) =~= Seq::<CommandView>::empty());
        assert(game_run(GameStage::Validating, a) == (GameStage::Extracting, Seq::empty() + (unzip
            + Seq::<CommandView>::empty())));
        assert(seq![CommandView::Validate] + ((Seq::<CommandView>::empty() + (unzip
            + Seq::<CommandView>::empty())) + Seq::<CommandView>::empty()) + (play
            + Seq::<CommandView>::empty()) =~= seq![CommandView::Validate] + progress_commands(
            p,
            length,
        ) + seq![CommandView::Unzipping, CommandView::Play]);
    } else {
        let d2 = fresh.advanced();
        let first = CommandView::Download { downloaded: p[0].0 as u64, total: length };
        let received = GameEvent::ChunkReceived { status };
        let written = GameEvent::ChunkWritten(Ok(()));
        let tail = seq![written] + chunk_events((k - 1) as nat, status);
        assert(b == seq![received, written] + chunk_events((k - 1) as nat, status));
        assert(b =~= seq![received] + tail);
        lemma_run_one(GameStage::Fetching(d2), received, tail);
        lemma_writing_loop(d2, status);
        assert(game_run(GameStage::Validating, a) == (GameStage::Fetching(d2), Seq::empty() + (
        seq![first] + Seq::<CommandView>::empty())));
        assert(progress_commands(p, length) =~= seq![first] + progress_commands(
            p.drop_first(),
            length,
        ));
        let mid = Seq::<CommandView>::empty() + (progress_commands(p.drop_first(), length) + unzip);
        assert(seq![CommandView::Validate] + (((Seq::<CommandView>::empty() + (seq![first]
            + Seq::<CommandView>::empty())) + mid) + (play + Seq::<CommandView>::empty()))
            =~= seq![CommandView::Validate] + progress_commands(p, length) + seq![
            CommandView::Unzipping,
            CommandView::Play,
        ]);
    }
}

/// With current local files the interface sees exactly `Validate`, then
/// `Play`: no download and no extraction.
pub proof fn lemma_current_files_commands()
    ensures
        game_run(GameStage::Validating, seq![GameEvent::Validated(Ok(true))]).0
            == GameStage::Preparing,
        seq![CommandView::Validate] + game_run(
            GameStage::Validating,
            seq![GameEvent::Validated(Ok(true))],
        ).1 == seq![CommandView::Validate, CommandView::Play],
{
    let e = GameEvent::Validated(Ok(true));
    assert(seq![e] =~= seq![e] + Seq::<GameEvent>::empty());
    lemma_run_one(GameStage::Validating, e, Seq::empty());
    assert(seq![CommandView::Validate] + (seq![CommandView::Play] + Seq::<CommandView>::empty())
        =~= seq![CommandView::Validate, CommandView::Play]);
}

} // verus!
