//! The processes that are started: the launcher and the Discord IPC bridge.

use vstd::prelude::*;

use crate::install::LAUNCHER_BIN_FILENAME;
use crate::text::{is_blank, is_blank_str, join_path, join_path_spec};

verus! {

/// Name of the Discord IPC bridge executable inside an installation.
pub const DISCORD_BRIDGE_FILENAME: &'static str = "winediscordipcbridge.exe";

/// Name of the Wine prefix directory of the bridge inside an installation.
pub const DISCORD_BRIDGE_PREFIX_DIRNAME: &'static str = "discord-bridge-prefix";

/// A variable set in a started process's environment.
#[derive(Debug)]
pub struct EnvVar {
    pub name: String,
    pub value: String,
}

/// A process to start.
#[derive(Debug)]
pub struct Command {
    /// The program to run.
    pub program: String,
    /// Its arguments, in order.
    pub args: Vec<String>,
    /// Variables set in its environment, in order.
    pub env: Vec<EnvVar>,
    /// Variables removed from the environment it inherits.
    pub env_remove: Vec<String>,
    /// Whether the process is killed when its handle is dropped.
    pub kill_on_drop: bool,
}

/// A `Command` as plain values.
pub struct CommandView {
    pub program: Seq<char>,
    pub args: Seq<Seq<char>>,
    pub env: Seq<(Seq<char>, Seq<char>)>,
    pub env_remove: Seq<Seq<char>>,
    pub kill_on_drop: bool,
}

impl View for Command {
    type V = CommandView;

    open spec fn view(&self) -> CommandView {
        CommandView {
            program: self.program@,
            args: self.args@.map_values(|a: String| a@),
            env: self.env@.map_values(|v: EnvVar| (v.name@, v.value@)),
            env_remove: self.env_remove@.map_values(|a: String| a@),
            kill_on_drop: self.kill_on_drop,
        }
    }
}

/// The launcher process of an installation: the launcher binary, given
/// `XL_PRELOAD` with the value of `LD_PRELOAD` where that is set and not
/// blank, and always without `LD_PRELOAD` (the Steam overlay breaks the
/// launcher's text).
pub open spec fn launcher_command_spec(install_dir: Seq<char>, ld_preload: Option<Seq<char>>) -> CommandView {
    CommandView {
        program: join_path_spec(install_dir, LAUNCHER_BIN_FILENAME@),
        args: Seq::empty(),
        env: match ld_preload {
            Some(v) => if !is_blank(v) {
                seq![("XL_PRELOAD"@, v)]
            } else {
                Seq::empty()
            },
            None => Seq::empty(),
        },
        env_remove: seq!["LD_PRELOAD"@],
        kill_on_drop: false,
    }
}

/// The bridge process: `umu-run` on the bridge executable, with `WINEPREFIX`
/// set to the bridge's prefix, `GAMEID` to its value or `umu-0`, and
/// `PROTONPATH` kept where it is set and not blank; killed with its handle.
pub open spec fn bridge_command_spec(
    install_dir: Seq<char>,
    game_id: Option<Seq<char>>,
    proton_path: Option<Seq<char>>,
) -> CommandView {
    let base = seq![
        ("WINEPREFIX"@, join_path_spec(install_dir, DISCORD_BRIDGE_PREFIX_DIRNAME@)),
        (
            "GAMEID"@,
            match game_id {
                Some(g) => g,
                None => "umu-0"@,
            },
        ),
    ];
    CommandView {
        program: "umu-run"@,
        args: seq![join_path_spec(install_dir, DISCORD_BRIDGE_FILENAME@)],
        env: match proton_path {
            Some(p) => if !is_blank(p) {
                base.push(("PROTONPATH"@, p))
            } else {
                base
            },
            None => base,
        },
        env_remove: Seq::empty(),
        kill_on_drop: true,
    }
}

/// The launcher process of the installation in `install_dir`; `ld_preload`
/// is the value of `LD_PRELOAD`, if set.
pub fn launcher_command(install_dir: &str, ld_preload: Option<&str>) -> (c: Command)
    ensures
        c@ == launcher_command_spec(
            install_dir@,
            match ld_preload {
                Some(v) => Some(v@),
                None => None,
            },
        ),
{
    let mut env: Vec<EnvVar> = Vec::new();
    match ld_preload {
        Some(v) => {
            if !is_blank_str(v) {
                env.push(EnvVar { name: String::from_str("XL_PRELOAD"), value: String::from_str(v) });
            }
        },
        None => {},
    }
    let mut env_remove: Vec<String> = Vec::new();
    env_remove.push(String::from_str("LD_PRELOAD"));
    let c = Command {
        program: join_path(install_dir, LAUNCHER_BIN_FILENAME),
        args: Vec::new(),
        env,
        env_remove,
        kill_on_drop: false,
    };
    let ghost expected = launcher_command_spec(
        install_dir@,
        match ld_preload {
            Some(v) => Some(v@),
            None => None,
        },
    );
    assert(c@.args =~= expected.args);
    assert(c@.env =~= expected.env);
    assert(c@.env_remove =~= expected.env_remove);
    c
}

/// The bridge process for the installation in `install_dir`; `game_id` and
/// `proton_path` are the values of `GAMEID` and `PROTONPATH`, if set.
pub fn bridge_command(install_dir: &str, game_id: Option<&str>, proton_path: Option<&str>) -> (c:
    Command)
    ensures
        c@ == bridge_command_spec(
            install_dir@,
            match game_id {
                Some(v) => Some(v@),
                None => None,
            },
            match proton_path {
                Some(v) => Some(v@),
                None => None,
            },
        ),
{
    let mut args: Vec<String> = Vec::new();
    args.push(join_path(install_dir, DISCORD_BRIDGE_FILENAME));
    let mut env: Vec<EnvVar> = Vec::new();
    env.push(
        EnvVar {
            name: String::from_str("WINEPREFIX"),
            value: join_path(install_dir, DISCORD_BRIDGE_PREFIX_DIRNAME),
        },
    );
    let game = match game_id {
        Some(g) => String::from_str(g),
        None => String::from_str("umu-0"),
    };
    env.push(EnvVar { name: String::from_str("GAMEID"), value: game });
    match proton_path {
        Some(p) => {
            if !is_blank_str(p) {
                env.push(EnvVar { name: String::from_str("PROTONPATH"), value: String::from_str(p) });
            }
        },
        None => {},
    }
    let c = Command {
        program: String::from_str("umu-run"),
        args,
        env,
        env_remove: Vec::new(),
        kill_on_drop: true,
    };
    let ghost expected = bridge_command_spec(
        install_dir@,
        match game_id {
            Some(v) => Some(v@),
            None => None,
        },
        match proton_path {
            Some(v) => Some(v@),
            None => None,
        },
    );
    assert(c@.args =~= expected.args);
    assert(c@.env =~= expected.env);
    assert(c@.env_remove =~= expected.env_remove);
    c
}

/// The launcher never inherits `LD_PRELOAD`: it is removed from the
/// environment and never set; its value reaches the launcher as
/// `XL_PRELOAD` exactly where it is set and not blank.
pub proof fn lemma_launcher_preload(install_dir: Seq<char>, ld_preload: Option<Seq<char>>)
    ensures
        ({
            let c = launcher_command_spec(install_dir, ld_preload);
            &&& c.env_remove.contains("LD_PRELOAD"@)
            &&& forall|i: int| 0 <= i < c.env.len() ==> (#[trigger] c.env[i]).0 == "XL_PRELOAD"@
            &&& (exists|i: int| 0 <= i < c.env.len() && (#[trigger] c.env[i]) == ("XL_PRELOAD"@, ld_preload->0))
                <==> (ld_preload is Some && !is_blank(ld_preload->0))
        }),
{
    let c = launcher_command_spec(install_dir, ld_preload);
    assert(c.env_remove[0] == "LD_PRELOAD"@);
    if ld_preload is Some && !is_blank(ld_preload->0) {
        assert(c.env[0] == ("XL_PRELOAD"@, ld_preload->0));
    }
}

/// The launcher process is always the launcher binary of the installation,
/// run with no arguments and not killed with its handle, whatever
/// `LD_PRELOAD` holds; `LD_PRELOAD` is removed from its environment, and its
/// environment sets exactly `XL_PRELOAD` to that value where it is set and
/// not blank, and nothing otherwise.
pub proof fn lemma_launcher_command_shape(install_dir: Seq<char>, ld_preload: Option<Seq<char>>)
    ensures
        ({
            let c = launcher_command_spec(install_dir, ld_preload);
            &&& c.program == join_path_spec(install_dir, LAUNCHER_BIN_FILENAME@)
            &&& c.args.len() == 0
            &&& !c.kill_on_drop
            &&& c.env_remove == seq!["LD_PRELOAD"@]
            &&& c.env == match ld_preload {
                Some(v) => if !is_blank(v) {
                    seq![("XL_PRELOAD"@, v)]
                } else {
                    Seq::<(Seq<char>, Seq<char>)>::empty()
                },
                None => Seq::<(Seq<char>, Seq<char>)>::empty(),
            }
        }),
{
}

/// The bridge process is `umu-run` on the bridge executable of the
/// installation, killed with its handle, with `WINEPREFIX` set to the
/// bridge's prefix in the installation, then `GAMEID` set to its value or
/// `umu-0`, then `PROTONPATH` set to its value exactly where that is set and
/// not blank — whether `GAMEID` is set or not.
pub proof fn lemma_bridge_command_shape(
    install_dir: Seq<char>,
    game_id: Option<Seq<char>>,
    proton_path: Option<Seq<char>>,
)
    ensures
        ({
            let c = bridge_command_spec(install_dir, game_id, proton_path);
            let keeps_proton = proton_path is Some && !is_blank(proton_path->0);
            &&& c.program == "umu-run"@
            &&& c.args == seq![join_path_spec(install_dir, DISCORD_BRIDGE_FILENAME@)]
            &&& c.kill_on_drop
            &&& c.env_remove.len() == 0
            &&& c.env.len() == if keeps_proton {
                3int
            } else {
                2int
            }
            &&& c.env[0] == ("WINEPREFIX"@, join_path_spec(install_dir, DISCORD_BRIDGE_PREFIX_DIRNAME@))
            &&& c.env[1] == (
                "GAMEID"@,
                match game_id {
                    Some(g) => g,
                    None => "umu-0"@,
                },
            )
            &&& keeps_proton ==> c.env[2] == ("PROTONPATH"@, proton_path->0)
        }),
{
}

} // verus!
