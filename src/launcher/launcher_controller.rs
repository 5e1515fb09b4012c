//! The control state machine: the single owner of the in-game flag.
use vstd::prelude::*;
use crate::launcher::commands::Command;

verus! {

/// What the control thread does after a command.
#[derive(Debug, PartialEq, Eq, Structural, Clone, Copy)]
pub enum ControlAction {
    /// Start a worker that runs the game-update pipeline and the game.
    SpawnWorker,
    /// Leave the control loop.
    Stop,
    /// Nothing beyond the state change, if any.
    Nothing,
}

/// The control thread's state: whether the game is running, and whether the
/// loop has ended.
#[derive(Debug, PartialEq, Eq, Structural, Clone, Copy)]
pub struct ControlStateMachine {
    in_game: bool,
    terminated: bool,
}

/// The state after a command.
pub open spec fn control_next(s: ControlStateMachine, cmd: Command) -> ControlStateMachine {
    if s.is_terminated() {
        s
    } else {
        match cmd {
            Command::Run => ControlStateMachine::state(true, false),
            Command::Continue => ControlStateMachine::state(false, false),
            Command::Exit => ControlStateMachine::state(s.is_in_game(), true),
            _ => s,
        }
    }
}

/// The action after a command.
pub open spec fn control_action(s: ControlStateMachine, cmd: Command) -> ControlAction {
    if s.is_terminated() {
        ControlAction::Nothing
    } else {
        match cmd {
            Command::Run => if s.is_in_game() {
                ControlAction::Nothing
            } else {
                ControlAction::SpawnWorker
            },
            Command::Exit => ControlAction::Stop,
            _ => ControlAction::Nothing,
        }
    }
}

/// The state after a sequence of commands.
pub open spec fn control_run(s: ControlStateMachine, cmds: Seq<Command>) -> ControlStateMachine
    decreases cmds.len(),
{
    if cmds.len() == 0 {
        s
    } else {
        control_run(control_next(s, cmds[0]), cmds.drop_first())
    }
}

impl ControlStateMachine {
    /// Whether the game is running.
    pub closed spec fn is_in_game(self) -> bool {
        self.in_game
    }

    /// Whether the control loop has ended.
    pub closed spec fn is_terminated(self) -> bool {
        self.terminated
    }

    /// The state with the given flags.
    pub closed spec fn state(in_game: bool, terminated: bool) -> Self {
        ControlStateMachine { in_game, terminated }
    }

    /// The state at start-up: idle, running.
    pub fn new() -> (r: Self)
        ensures
            !r.is_in_game(),
            !r.is_terminated(),
    {
        ControlStateMachine { in_game: false, terminated: false }
    }

    /// The in-game flag.
    pub fn in_game(&self) -> (r: bool)
        ensures
            r == self.is_in_game(),
    {
        self.in_game
    }

    /// Whether the loop has ended.
    pub fn terminated(&self) -> (r: bool)
        ensures
            r == self.is_terminated(),
    {
        self.terminated
    }

    /// Handles one command. `Run` while idle sets the flag and asks for a
    /// worker; `Run` while in game is refused; `Continue` clears the flag;
    /// `Exit` ends the loop; after that nothing changes.
    pub fn handle(&mut self, cmd: &Command) -> (r: ControlAction)
        ensures
            *final(self) == control_next(*old(self), *cmd),
            r == control_action(*old(self), *cmd),
            final(self).is_in_game() == (if old(self).is_terminated() {
                old(self).is_in_game()
            } else {
                match *cmd {
                    Command::Run => true,
                    Command::Continue => false,
                    _ => old(self).is_in_game(),
                }
            }),
            final(self).is_terminated() == (old(self).is_terminated() || *cmd is Exit),
    {
        if self.terminated {
            return ControlAction::Nothing;
        }
        match cmd {
            Command::Run => {
                if self.in_game {
                    ControlAction::Nothing
                } else {
                    self.in_game = true;
                    ControlAction::SpawnWorker
                }
            },
            Command::Continue => {
                self.in_game = false;
                ControlAction::Nothing
            },
            Command::Exit => {
                self.terminated = true;
                ControlAction::Stop
            },
            _ => ControlAction::Nothing,
        }
    }
}

/// `Run` then `Continue` leaves the in-game flag cleared; `Run` sets the flag
/// in the same step that asks for the worker, so the flag is set before the
/// worker exists.
pub proof fn lemma_run_then_continue(s: ControlStateMachine)
    requires
        !s.is_terminated(),
        !s.is_in_game(),
    ensures
        control_next(s, Command::Run).is_in_game(),
        control_action(s, Command::Run) == ControlAction::SpawnWorker,
        !control_next(control_next(s, Command::Run), Command::Continue).is_in_game(),
        !control_next(control_next(s, Command::Run), Command::Continue).is_terminated(),
{
}

/// `Exit` stops the loop, and no command after it changes the state or asks
/// for any action.
pub proof fn lemma_exit_is_final(s: ControlStateMachine, later: Seq<Command>)
    ensures
        control_action(s, Command::Exit) == (if s.is_terminated() {
            ControlAction::Nothing
        } else {
            ControlAction::Stop
        }),
        control_next(s, Command::Exit).is_terminated(),
        control_run(control_next(s, Command::Exit), later) == control_next(s, Command::Exit),
        forall|i: int|
            0 <= i < later.len() ==> control_action(
                control_run(control_next(s, Command::Exit), later.take(i)),
                #[trigger] later[i],
            ) == ControlAction::Nothing,
    decreases later.len(),
{
    let t = control_next(s, Command::Exit);
    lemma_terminated_stays(t, later);
    assert forall|i: int| 0 <= i < later.len() implies control_action(
        control_run(t, later.take(i)),
        #[trigger] later[i],
    ) == ControlAction::Nothing by {
        lemma_terminated_stays(t, later.take(i));
    }
}

proof fn lemma_terminated_stays(t: ControlStateMachine, later: Seq<Command>)
    requires
        t.is_terminated(),
    ensures
        control_run(t, later) == t,
    decreases later.len(),
{
    if later.len() > 0 {
        lemma_terminated_stays(t, later.drop_first());
    }
}

} // verus!
