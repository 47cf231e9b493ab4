//! Starting the Discord IPC bridge next to the launcher, as a state machine:
//! each step names the check to make next, and the caller hands back its
//! answer.

use vstd::prelude::*;

use crate::command::{
    bridge_command, bridge_command_spec, lemma_bridge_command_shape, Command, CommandView,
    DISCORD_BRIDGE_FILENAME, DISCORD_BRIDGE_PREFIX_DIRNAME,
};
use crate::text::{is_blank, join_path, join_path_spec};

verus! {

/// Name of Discord's IPC socket in the runtime directory.
pub const DISCORD_IPC_SOCKET: &'static str = "discord-ipc-0";

/// A piece of work that the bridge start asks the caller to do.
#[derive(Debug)]
pub enum BridgeAction {
    /// Check whether a file exists at this path (`fs::exists`); answer
    /// `Found`, or `Failed` where the check fails.
    CheckFile(String),
    /// Read this environment variable; answer `Env`.
    ReadEnv(String),
    /// Check whether this path exists (`Path::exists`); answer `Found`.
    CheckPath(String),
    /// Run `pgrep -f` with this pattern; answer `Status` with whether it
    /// exited with success, or `Failed` where it could not run.
    FindProcess(String),
    /// Start this process; answer `Spawned`, or `Failed`.
    Spawn(Command),
    /// Over: whether a bridge process was started.
    Finish(bool),
}

/// A `BridgeAction` as plain values.
pub enum BridgeActionView {
    CheckFile(Seq<char>),
    ReadEnv(Seq<char>),
    CheckPath(Seq<char>),
    FindProcess(Seq<char>),
    Spawn(CommandView),
    Finish(bool),
}

impl View for BridgeAction {
    type V = BridgeActionView;

    open spec fn view(&self) -> BridgeActionView {
        match self {
            BridgeAction::CheckFile(s) => BridgeActionView::CheckFile(s@),
            BridgeAction::ReadEnv(s) => BridgeActionView::ReadEnv(s@),
            BridgeAction::CheckPath(s) => BridgeActionView::CheckPath(s@),
            BridgeAction::FindProcess(s) => BridgeActionView::FindProcess(s@),
            BridgeAction::Spawn(c) => BridgeActionView::Spawn(c@),
            BridgeAction::Finish(b) => BridgeActionView::Finish(*b),
        }
    }
}

/// The answer to a `BridgeAction`.
#[derive(Debug)]
pub enum BridgeEvent {
    Found(bool),
    Env(Option<String>),
    Status(bool),
    Spawned,
    Failed,
}

/// A `BridgeEvent` as plain values.
pub enum BridgeEventView {
    Found(bool),
    Env(Option<Seq<char>>),
    Status(bool),
    Spawned,
    Failed,
}

impl View for BridgeEvent {
    type V = BridgeEventView;

    open spec fn view(&self) -> BridgeEventView {
        match self {
            BridgeEvent::Found(b) => BridgeEventView::Found(*b),
            BridgeEvent::Env(v) => BridgeEventView::Env(
                match v {
                    Some(s) => Some(s@),
                    None => None,
                },
            ),
            BridgeEvent::Status(b) => BridgeEventView::Status(*b),
            BridgeEvent::Spawned => BridgeEventView::Spawned,
            BridgeEvent::Failed => BridgeEventView::Failed,
        }
    }
}

/// Where a bridge start stands: which answer it awaits.
#[derive(Debug, Clone, Copy, PartialEq, Eq, Structural)]
pub enum BridgeStage {
    CheckingExecutable,
    ReadingRuntimeDir,
    CheckingSocket,
    CheckingRunning,
    ReadingGameId,
    ReadingProtonPath,
    Spawning,
    Finished,
}

/// The value that an `Env` answer carries, `None` for any other answer.
pub open spec fn env_value(e: BridgeEventView) -> Option<Seq<char>> {
    match e {
        BridgeEventView::Env(v) => v,
        _ => None,
    }
}

/// The stage and action that follow the answer `e` in `stage`, for the
/// installation in `dir`; `game_id` is the `GAMEID` answer once read.
pub open spec fn bridge_next(
    dir: Seq<char>,
    stage: BridgeStage,
    game_id: Option<Seq<char>>,
    e: BridgeEventView,
) -> (BridgeStage, BridgeActionView) {
    let finish = (BridgeStage::Finished, BridgeActionView::Finish(false));
    match stage {
        BridgeStage::CheckingExecutable => if e == BridgeEventView::Found(true) {
            (BridgeStage::ReadingRuntimeDir, BridgeActionView::ReadEnv("XDG_RUNTIME_DIR"@))
        } else {
            finish
        },
        BridgeStage::ReadingRuntimeDir => match env_value(e) {
            Some(d) => (
                BridgeStage::CheckingSocket,
                BridgeActionView::CheckPath(join_path_spec(d, DISCORD_IPC_SOCKET@)),
            ),
            None => finish,
        },
        BridgeStage::CheckingSocket => if e == BridgeEventView::Found(true) {
            (BridgeStage::CheckingRunning, BridgeActionView::FindProcess(DISCORD_BRIDGE_FILENAME@))
        } else {
            finish
        },
        BridgeStage::CheckingRunning => if e == BridgeEventView::Status(false) {
            (BridgeStage::ReadingGameId, BridgeActionView::ReadEnv("GAMEID"@))
        } else {
            finish
        },
        BridgeStage::ReadingGameId => (
            BridgeStage::ReadingProtonPath,
            BridgeActionView::ReadEnv("PROTONPATH"@),
        ),
        BridgeStage::ReadingProtonPath => (
            BridgeStage::Spawning,
            BridgeActionView::Spawn(bridge_command_spec(dir, game_id, env_value(e))),
        ),
        BridgeStage::Spawning => (
            BridgeStage::Finished,
            BridgeActionView::Finish(e == BridgeEventView::Spawned),
        ),
        BridgeStage::Finished => finish,
    }
}

/// A bridge start in progress.
pub struct BridgeFlow {
    install_dir: String,
    stage: BridgeStage,
    game_id: Option<String>,
    history: Ghost<Seq<BridgeEventView>>,
}

impl BridgeFlow {
    pub closed spec fn install_dir(&self) -> Seq<char> {
        self.install_dir@
    }

    pub closed spec fn stage(&self) -> BridgeStage {
        self.stage
    }

    pub closed spec fn game_id(&self) -> Option<Seq<char>> {
        match self.game_id {
            Some(g) => Some(g@),
            None => None,
        }
    }

    /// The answers handed back so far.
    pub closed spec fn history(&self) -> Seq<BridgeEventView> {
        self.history@
    }

    /// The start's own invariant: the answers so far are those that lead to
    /// the current stage.
    pub open spec fn wf(&self) -> bool {
        let h = self.history();
        match self.stage() {
            BridgeStage::CheckingExecutable => h.len() == 0,
            BridgeStage::ReadingRuntimeDir => h.len() == 1 && passed_checks(h, 1),
            BridgeStage::CheckingSocket => h.len() == 2 && passed_checks(h, 2),
            BridgeStage::CheckingRunning => h.len() == 3 && passed_checks(h, 3),
            BridgeStage::ReadingGameId => h.len() == 4 && passed_checks(h, 4),
            BridgeStage::ReadingProtonPath => h.len() == 5 && passed_checks(h, 4) && self.game_id()
                == env_value(h[4]),
            BridgeStage::Spawning => h.len() == 6 && passed_checks(h, 4),
            BridgeStage::Finished => true,
        }
    }
}

/// The first `n` answers are those that let a start go on: the executable
/// found, a runtime directory, the IPC socket found, no bridge running.
pub open spec fn passed_checks(h: Seq<BridgeEventView>, n: int) -> bool {
    &&& n >= 1 ==> h[0] == BridgeEventView::Found(true)
    &&& n >= 2 ==> env_value(h[1]) is Some
    &&& n >= 3 ==> h[2] == BridgeEventView::Found(true)
    &&& n >= 4 ==> h[3] == BridgeEventView::Status(false)
}

/// Starts the bridge start for the installation in `install_dir`: its first
/// step checks for the bridge executable there.
pub fn start_discord_bridge(install_dir: &str) -> (r: (BridgeFlow, BridgeAction))
    ensures
        r.0.wf(),
        r.0.install_dir() == install_dir@,
        r.0.stage() == BridgeStage::CheckingExecutable,
        r.0.history() == Seq::<BridgeEventView>::empty(),
        r.1@ == BridgeActionView::CheckFile(join_path_spec(install_dir@, DISCORD_BRIDGE_FILENAME@)),
{
    (
        BridgeFlow {
            install_dir: String::from_str(install_dir),
            stage: BridgeStage::CheckingExecutable,
            game_id: None,
            history: Ghost(Seq::empty()),
        },
        BridgeAction::CheckFile(join_path(install_dir, DISCORD_BRIDGE_FILENAME)),
    )
}

impl BridgeFlow {
    /// Whether the bridge start is over.
    pub fn is_over(&self) -> (b: bool)
        ensures
            b == (self.stage() == BridgeStage::Finished),
    {
        self.stage == BridgeStage::Finished
    }

    /// Hands back the answer to the current step and returns the next one.
    pub fn step(&mut self, event: BridgeEvent) -> (a: BridgeAction)
        requires
            old(self).wf(),
            old(self).stage() != BridgeStage::Finished,
        ensures
            final(self).wf(),
            final(self).install_dir() == old(self).install_dir(),
            final(self).history() == old(self).history().push(event@),
            (final(self).stage(), a@) == bridge_next(
                old(self).install_dir(),
                old(self).stage(),
                old(self).game_id(),
                event@,
            ),
    {
        let ghost e = event@;
        proof {
            self.history@ = self.history@.push(e);
        }
        let ghost h = self.history@;
        assert(h.last() == e);
        match self.stage {
            BridgeStage::CheckingExecutable => {
                if let BridgeEvent::Found(true) = event {
                    self.stage = BridgeStage::ReadingRuntimeDir;
                    BridgeAction::ReadEnv(String::from_str("XDG_RUNTIME_DIR"))
                } else {
                    self.stage = BridgeStage::Finished;
                    BridgeAction::Finish(false)
                }
            },
            BridgeStage::ReadingRuntimeDir => {
                if let BridgeEvent::Env(Some(dir)) = event {
                    self.stage = BridgeStage::CheckingSocket;
                    proof {
                        assert(passed_checks(h, 2));
                    }
                    BridgeAction::CheckPath(join_path(dir.as_str(), DISCORD_IPC_SOCKET))
                } else {
                    self.stage = BridgeStage::Finished;
                    BridgeAction::Finish(false)
                }
            },
            BridgeStage::CheckingSocket => {
                if let BridgeEvent::Found(true) = event {
                    self.stage = BridgeStage::CheckingRunning;
                    proof {
                        assert(passed_checks(h, 3));
                    }
                    BridgeAction::FindProcess(String::from_str(DISCORD_BRIDGE_FILENAME))
                } else {
                    self.stage = BridgeStage::Finished;
                    BridgeAction::Finish(false)
                }
            },
            BridgeStage::CheckingRunning => {
                if let BridgeEvent::Status(false) = event {
                    self.stage = BridgeStage::ReadingGameId;
                    proof {
                        assert(passed_checks(h, 4));
                    }
                    BridgeAction::ReadEnv(String::from_str("GAMEID"))
                } else {
                    self.stage = BridgeStage::Finished;
                    BridgeAction::Finish(false)
                }
            },
            BridgeStage::ReadingGameId => {
                self.game_id = match event {
                    BridgeEvent::Env(v) => v,
                    _ => None,
                };
                self.stage = BridgeStage::ReadingProtonPath;
                proof {
                    assert(passed_checks(h, 4));
                }
                BridgeAction::ReadEnv(String::from_str("PROTONPATH"))
            },
            BridgeStage::ReadingProtonPath => {
                let proton: Option<&str> = match &event {
                    BridgeEvent::Env(Some(p)) => Some(p.as_str()),
                    _ => None,
                };
                let game: Option<&str> = match &self.game_id {
                    Some(g) => Some(g.as_str()),
                    None => None,
                };
                let c = bridge_command(self.install_dir.as_str(), game, proton);
                self.stage = BridgeStage::Spawning;
                proof {
                    assert(passed_checks(h, 4));
                }
                BridgeAction::Spawn(c)
            },
            BridgeStage::Spawning => {
                self.stage = BridgeStage::Finished;
                let started = match event {
                    BridgeEvent::Spawned => true,
                    _ => false,
                };
                BridgeAction::Finish(started)
            },
            BridgeStage::Finished => {
                BridgeAction::Finish(false)
            },
        }
    }
}

/// A bridge process is started only after the bridge executable was found
/// in the installation, a runtime directory was read, Discord's IPC socket
/// was found in it and no bridge process was found running.
pub proof fn lemma_bridge_spawned_only_after_checks(flow: BridgeFlow, e: BridgeEventView)
    requires
        flow.wf(),
        bridge_next(flow.install_dir(), flow.stage(), flow.game_id(), e).1 is Spawn,
    ensures
        ({
            let h = flow.history().push(e);
            &&& h[0] == BridgeEventView::Found(true)
            &&& env_value(h[1]) is Some
            &&& h[2] == BridgeEventView::Found(true)
            &&& h[3] == BridgeEventView::Status(false)
        }),
{
    assert(flow.stage() == BridgeStage::ReadingProtonPath);
}

/// Once the checks passed, the bridge start reads `GAMEID` and then
/// `PROTONPATH`, and starts `umu-run` on the bridge executable of the
/// installation with `WINEPREFIX` set to the bridge's prefix, `GAMEID` to
/// the value it read (or `umu-0`), and `PROTONPATH` to the value it read
/// exactly where that is set and not blank; it then reports whether the
/// process started.
pub proof fn lemma_bridge_spawn_command(flow: BridgeFlow, e: BridgeEventView, proton: Option<Seq<char>>)
    requires
        flow.wf(),
        flow.stage() == BridgeStage::ReadingProtonPath,
    ensures
        ({
            let dir = flow.install_dir();
            let (st, a) = bridge_next(dir, flow.stage(), flow.game_id(), BridgeEventView::Env(proton));
            let keeps_proton = proton is Some && !is_blank(proton->0);
            &&& st == BridgeStage::Spawning
            &&& a matches BridgeActionView::Spawn(c) && {
                &&& c.program == "umu-run"@
                &&& c.args == seq![join_path_spec(dir, DISCORD_BRIDGE_FILENAME@)]
                &&& c.kill_on_drop
                &&& c.env.len() == if keeps_proton {
                    3int
                } else {
                    2int
                }
                &&& c.env[0] == ("WINEPREFIX"@, join_path_spec(dir, DISCORD_BRIDGE_PREFIX_DIRNAME@))
                &&& c.env[1] == (
                    "GAMEID"@,
                    match env_value(flow.history()[4]) {
                        Some(g) => g,
                        None => "umu-0"@,
                    },
                )
                &&& keeps_proton ==> c.env[2] == ("PROTONPATH"@, proton->0)
            }
            &&& bridge_next(dir, BridgeStage::Spawning, flow.game_id(), BridgeEventView::Spawned).1
                == BridgeActionView::Finish(true)
            &&& bridge_next(dir, BridgeStage::Spawning, flow.game_id(), BridgeEventView::Failed).1
                == BridgeActionView::Finish(false)
        }),
{
    lemma_bridge_command_shape(flow.install_dir(), flow.game_id(), proton);
}

/// Each check of a bridge start stops it, with no bridge, unless it passed:
/// the executable must be found, the runtime directory set, the socket found
/// and no bridge running.
pub proof fn lemma_bridge_checks(dir: Seq<char>, g: Option<Seq<char>>, e: BridgeEventView)
    ensures
        e != BridgeEventView::Found(true) ==> bridge_next(dir, BridgeStage::CheckingExecutable, g, e)
            == (BridgeStage::Finished, BridgeActionView::Finish(false)),
        env_value(e) is None ==> bridge_next(dir, BridgeStage::ReadingRuntimeDir, g, e) == (
            BridgeStage::Finished,
            BridgeActionView::Finish(false),
        ),
        e matches BridgeEventView::Env(Some(d)) ==> bridge_next(
            dir,
            BridgeStage::ReadingRuntimeDir,
            g,
            e,
        ).1 == BridgeActionView::CheckPath(join_path_spec(d, DISCORD_IPC_SOCKET@)),
        e != BridgeEventView::Found(true) ==> bridge_next(dir, BridgeStage::CheckingSocket, g, e)
            == (BridgeStage::Finished, BridgeActionView::Finish(false)),
        e != BridgeEventView::Status(false) ==> bridge_next(dir, BridgeStage::CheckingRunning, g, e)
            == (BridgeStage::Finished, BridgeActionView::Finish(false)),
        bridge_next(dir, BridgeStage::CheckingRunning, g, BridgeEventView::Status(false)).1
            == BridgeActionView::ReadEnv("GAMEID"@),
        bridge_next(dir, BridgeStage::CheckingExecutable, g, BridgeEventView::Found(true)).1
            == BridgeActionView::ReadEnv("XDG_RUNTIME_DIR"@),
        bridge_next(dir, BridgeStage::CheckingSocket, g, BridgeEventView::Found(true)).1
            == BridgeActionView::FindProcess(DISCORD_BRIDGE_FILENAME@),
        bridge_next(dir, BridgeStage::ReadingGameId, g, e) == (
            BridgeStage::ReadingProtonPath,
            BridgeActionView::ReadEnv("PROTONPATH"@),
        ),
{
}

} // verus!
