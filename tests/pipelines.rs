use funnylauncher::launcher::commands::Command;
use funnylauncher::launcher::launcher_controller::{ControlAction, ControlStateMachine};
use funnylauncher::launcher::launcher_update::{
    need_update, Command as UpdateCommand, SelfUpdate, UpdateAction, UpdateData, UpdateEvent,
    UpdateOutcome, LAUNCHER_CHUNK_SIZE,
};
use funnylauncher::minecraft::downloader::{GameAction, GameEvent, GameUpdate, GAME_CHUNK_SIZE};
use funnylauncher::minecraft::validate::{is_valid_files, ValidationError};

/// Drives a game update with the given events; returns every command emitted.
fn drive(events: Vec<GameEvent>) -> (Vec<Command>, Vec<GameAction>, GameUpdate) {
    let (mut g, first) = GameUpdate::start();
    let mut cmds = first.commands;
    let mut actions = vec![first.action];
    for e in events {
        let step = g.step(e);
        cmds.extend(step.commands);
        actions.push(step.action);
    }
    (cmds, actions, g)
}

#[test]
fn stale_files_give_validate_download_unzipping_play() {
    let total = 2 * GAME_CHUNK_SIZE as u64 + 5;
    let events = vec![
        GameEvent::Validated(Ok(false)),
        GameEvent::PackageInfo { status: 200, content_length: Some(total) },
        GameEvent::ChunkReceived { status: 206 },
        GameEvent::ChunkWritten(Ok(())),
        GameEvent::ChunkReceived { status: 206 },
        GameEvent::ChunkWritten(Ok(())),
        GameEvent::ChunkReceived { status: 206 },
        GameEvent::ChunkWritten(Ok(())),
        GameEvent::Extracted(Ok(())),
    ];
    let (cmds, actions, _) = drive(events);
    let c = GAME_CHUNK_SIZE as u64;
    assert_eq!(
        cmds,
        vec![
            Command::Validate,
            Command::Download { downloaded: 0, total },
            Command::Download { downloaded: c, total },
            Command::Download { downloaded: 2 * c, total },
            Command::Unzipping,
            Command::Play,
        ]
    );
    assert_eq!(actions[0], GameAction::Validate);
    assert_eq!(actions[1], GameAction::FetchPackageInfo);
    assert_eq!(actions[2], GameAction::FetchChunk { first: 0, last: c - 1 });
    assert_eq!(actions[3], GameAction::WriteChunk);
    assert_eq!(actions[6], GameAction::FetchChunk { first: 2 * c, last: total - 1 });
    assert_eq!(actions[8], GameAction::Extract);
    assert_eq!(actions[9], GameAction::Prepare);
}

#[test]
fn current_files_give_validate_play() {
    let (cmds, actions, _) = drive(vec![GameEvent::Validated(Ok(true))]);
    assert_eq!(cmds, vec![Command::Validate, Command::Play]);
    assert_eq!(actions, vec![GameAction::Validate, GameAction::Prepare]);
}

#[test]
fn full_run_ends_with_continue() {
    let (cmds, actions, g) = drive(vec![
        GameEvent::Validated(Ok(true)),
        GameEvent::Prepared(Ok(())),
        GameEvent::Launched(Ok(())),
        GameEvent::Exited(Ok(())),
    ]);
    assert_eq!(cmds, vec![Command::Validate, Command::Play, Command::Continue]);
    assert_eq!(actions[3], GameAction::WaitForExit);
    assert_eq!(actions[4], GameAction::Finish);
    assert!(g.is_finished());
}

#[test]
fn validation_failure_reports_and_finishes() {
    let (cmds, actions, g) = drive(vec![GameEvent::Validated(Err("offline".to_string()))]);
    assert_eq!(
        cmds,
        vec![
            Command::Validate,
            Command::Error {
                message: "Couldn't connect to update server. Check your internet connection."
                    .to_string()
            },
            Command::Continue,
        ]
    );
    assert_eq!(actions[1], GameAction::Finish);
    assert!(g.is_finished());
}

#[test]
fn download_failures_report_and_finish() {
    let (cmds, _, _) = drive(vec![
        GameEvent::Validated(Ok(false)),
        GameEvent::PackageInfo { status: 200, content_length: None },
    ]);
    assert_eq!(
        cmds[1],
        Command::Error {
            message: "Error while connecting to update server: Content length is empty.".to_string()
        }
    );
    let (cmds, _, _) = drive(vec![
        GameEvent::Validated(Ok(false)),
        GameEvent::PackageInfo { status: 200, content_length: Some(10) },
        GameEvent::ChunkReceived { status: 416 },
    ]);
    assert_eq!(
        cmds[2],
        Command::Error { message: "Error while connecting to update server: Server error: 416".to_string() }
    );
    assert_eq!(cmds[3], Command::Continue);
    let (cmds, _, _) = drive(vec![
        GameEvent::Validated(Ok(true)),
        GameEvent::Prepared(Ok(())),
        GameEvent::Launched(Err("no java".to_string())),
    ]);
    assert_eq!(
        cmds[2],
        Command::Error { message: "Error while launching minecraft: no java".to_string() }
    );
}

#[test]
fn unexpected_events_are_ignored() {
    let (cmds, actions, _) = drive(vec![GameEvent::Extracted(Ok(()))]);
    assert_eq!(cmds, vec![Command::Validate]);
    assert_eq!(actions[1], GameAction::Ignore);
}

#[test]
fn run_then_continue_clears_in_game() {
    let mut m = ControlStateMachine::new();
    assert!(!m.in_game());
    assert_eq!(m.handle(&Command::Run), ControlAction::SpawnWorker);
    assert!(m.in_game());
    assert_eq!(m.handle(&Command::Run), ControlAction::Nothing);
    assert_eq!(m.handle(&Command::Validate), ControlAction::Nothing);
    assert!(m.in_game());
    assert_eq!(m.handle(&Command::Continue), ControlAction::Nothing);
    assert!(!m.in_game());
}

#[test]
fn exit_stops_processing() {
    let mut m = ControlStateMachine::new();
    assert_eq!(m.handle(&Command::Exit), ControlAction::Stop);
    assert!(m.terminated());
    assert_eq!(m.handle(&Command::Run), ControlAction::Nothing);
    assert!(!m.in_game());
    assert_eq!(m.handle(&Command::Exit), ControlAction::Nothing);
}

#[test]
fn same_version_never_downloads() {
    let mut u = SelfUpdate::new("1.0.3");
    let step = u.step(UpdateEvent::VersionFetched { status: 200, text: "1.0.3".to_string() });
    assert_eq!(step.commands, vec![UpdateCommand::Completed]);
    assert_eq!(step.action, UpdateAction::Finish(UpdateOutcome::NoUpdateNeeded));
    assert!(u.is_done());
    let step = u.step(UpdateEvent::PackageInfo { status: 200, content_length: Some(5) });
    assert_eq!(step.action, UpdateAction::Ignore);
}

#[test]
fn new_version_downloads_replaces_and_relaunches() {
    let mut u = SelfUpdate::new("1.0.3");
    let step = u.step(UpdateEvent::VersionFetched { status: 200, text: "1.0.4".to_string() });
    assert_eq!(step.action, UpdateAction::FetchPackageInfo);
    let size = LAUNCHER_CHUNK_SIZE as u64 + 1;
    let step = u.step(UpdateEvent::PackageInfo { status: 200, content_length: Some(size) });
    assert_eq!(step.commands, vec![UpdateCommand::Data(UpdateData { downloaded: 0, size })]);
    assert_eq!(step.action, UpdateAction::FetchChunk { first: 0, last: size - 2 });
    assert_eq!(u.step(UpdateEvent::ChunkReceived { status: 206 }).action, UpdateAction::WriteChunk);
    let step = u.step(UpdateEvent::ChunkWritten(Ok(())));
    assert_eq!(step.commands, vec![UpdateCommand::Data(UpdateData { downloaded: size - 1, size })]);
    assert_eq!(u.step(UpdateEvent::ChunkReceived { status: 206 }).action, UpdateAction::WriteChunk);
    assert_eq!(u.step(UpdateEvent::ChunkWritten(Ok(()))).action, UpdateAction::Replace);
    assert_eq!(u.step(UpdateEvent::Replaced(Ok(()))).action, UpdateAction::Relaunch);
    let step = u.step(UpdateEvent::Relaunched(Ok(())));
    assert_eq!(step.commands, vec![UpdateCommand::Completed]);
    assert_eq!(step.action, UpdateAction::Finish(UpdateOutcome::Updated));
}

#[test]
fn self_update_failures() {
    let mut u = SelfUpdate::new("1");
    let step = u.step(UpdateEvent::VersionFetched { status: 502, text: String::new() });
    assert_eq!(step.action, UpdateAction::Abort);
    assert_eq!(step.commands, vec![UpdateCommand::Abort]);
    assert_eq!(step.error, Some("Server error: 502".to_string()));
    let mut u = SelfUpdate::new("1");
    u.step(UpdateEvent::VersionFetched { status: 200, text: "2".to_string() });
    u.step(UpdateEvent::PackageInfo { status: 200, content_length: Some(0) });
    let step = u.step(UpdateEvent::Replaced(Err("busy".to_string())));
    assert_eq!(step.action, UpdateAction::Fatal);
    assert_eq!(step.error, Some("busy".to_string()));
    let mut u = SelfUpdate::new("1");
    let step = u.step(UpdateEvent::RequestFailed("timeout".to_string()));
    assert_eq!(step.action, UpdateAction::Abort);
}

#[test]
fn need_update_compares_exactly() {
    assert_eq!(need_update("1.0", 200, "1.0"), Ok(false));
    assert_eq!(need_update("1.0", 200, "1.0\n"), Ok(true));
    assert_eq!(need_update("1.0", 500, "1.0"), Err("Server error: 500".to_string()));
}

#[test]
fn integrity_check_compares_checksums() {
    let ok = |s: &str| Ok::<String, String>(s.to_string());
    assert_eq!(is_valid_files(ok("abc"), Ok((200, "abc".to_string()))), Ok(true));
    assert_eq!(is_valid_files(ok("abc"), Ok((200, "abd".to_string()))), Ok(false));
    assert_eq!(
        is_valid_files(Err("no dir".to_string()), Ok((200, "abc".to_string()))),
        Err(ValidationError::Checksum("no dir".to_string()))
    );
    assert_eq!(
        is_valid_files(ok("abc"), Err("timeout".to_string())),
        Err(ValidationError::Network("timeout".to_string()))
    );
    assert_eq!(is_valid_files(ok("abc"), Ok((404, "abc".to_string()))), Err(ValidationError::Server(404)));
}
