//! Installing or updating the launcher when needed and then running it, as a
//! state machine: each step names the work to do next, and the caller hands
//! back its outcome.

use vstd::prelude::*;

use crate::aria_source::{AriaSource, AriaSourceView};
use crate::bridge::{start_discord_bridge, BridgeAction, BridgeActionView, BridgeFlow, BridgeStage};
use crate::command::{launcher_command, launcher_command_spec, Command, CommandView, DISCORD_BRIDGE_FILENAME};
use crate::error::{InstallError, InstallErrorView, LaunchError, LaunchErrorView};
use crate::install::{
    install_or_update_xlcore, install_script, lemma_write_version_step, InstallAction, InstallFlow, InstallPlanView,
    OutcomeView, LAUNCHER_BIN_FILENAME, VERSIONDATA_LOCAL_FILENAME,
};
use crate::release::{is_success_status, ReleaseAssetInfo, ReleaseView, VersionQuery};
use crate::text::{join_path, join_path_spec, trim_spec};
use crate::web_url::{url_join, WebUrl};

verus! {

/// Name of the plain-text version file under the web release URL.
pub const VERSION_REMOTE_FILENAME: &'static str = "version";

/// Install or update the launcher and then open it.
#[derive(Debug)]
pub struct LaunchCommand {
    /// The name of the release tar.gz archive that holds a self-contained launcher.
    pub xlcore_release_asset: String,
    /// The URL under which the release archive and the `version` file are.
    pub xlcore_web_release_url: WebUrl,
    /// Where the launcher is installed.
    pub xlcore_install_directory: String,
    /// Where the `aria2c` tarball comes from.
    pub aria_source: AriaSource,
    /// Skip checking for and installing new versions once the launcher is installed.
    pub skip_update: bool,
}

/// A `LaunchCommand` as plain values.
pub struct LaunchCommandView {
    pub release_asset: Seq<char>,
    pub web_release_url: Seq<char>,
    pub install_dir: Seq<char>,
    pub aria_source: AriaSourceView,
    pub skip_update: bool,
}

impl View for LaunchCommand {
    type V = LaunchCommandView;

    open spec fn view(&self) -> LaunchCommandView {
        LaunchCommandView {
            release_asset: self.xlcore_release_asset@,
            web_release_url: self.xlcore_web_release_url@,
            install_dir: self.xlcore_install_directory@,
            aria_source: self.aria_source@,
            skip_update: self.skip_update,
        }
    }
}

/// A piece of work that a launch asks the caller to do.
pub enum LaunchAction {
    /// Send a GET request to this URL; answer `Response`, or `Failed`.
    FetchVersion(String),
    /// Read the body of that response as text; answer `Body`, or `Failed`.
    ReadVersionBody,
    /// Check whether the launcher binary exists at this path (`fs::exists`);
    /// answer `Found`, or `Failed`.
    CheckInstalled(String),
    /// Read this file as text; answer `LocalVersion`, `NotFound` where it
    /// does not exist, or `Failed`.
    ReadLocalVersion(String),
    /// Run this install, starting with this step; answer `InstallFinished`.
    Install(InstallFlow, InstallAction),
    /// Run this bridge start, starting with this step; answer `BridgeFinished`.
    StartBridge(BridgeFlow, BridgeAction),
    /// Read this environment variable; answer `Env`.
    ReadEnv(String),
    /// Start the launcher as this process; answer `Spawned`, or `Failed`.
    Spawn(Command),
    /// Wait for the launcher to exit; answer `Exited`, or `Failed`.
    WaitLauncher,
    /// Kill the bridge process and wait for it; answer `Stopped`.
    StopBridge,
    /// The launch is over, with this result.
    Finish(Result<(), LaunchError>),
}

/// A `LaunchAction` as plain values.
pub enum LaunchActionView {
    FetchVersion(Seq<char>),
    ReadVersionBody,
    CheckInstalled(Seq<char>),
    ReadLocalVersion(Seq<char>),
    Install(InstallPlanView),
    StartBridge(Seq<char>),
    ReadEnv(Seq<char>),
    Spawn(CommandView),
    WaitLauncher,
    StopBridge,
    Finish(Result<(), LaunchErrorView>),
}

/// A launch result as plain values.
pub open spec fn result_view(r: Result<(), LaunchError>) -> Result<(), LaunchErrorView> {
    match r {
        Ok(()) => Ok(()),
        Err(e) => Err(e@),
    }
}

impl View for LaunchAction {
    type V = LaunchActionView;

    open spec fn view(&self) -> LaunchActionView {
        match self {
            LaunchAction::FetchVersion(u) => LaunchActionView::FetchVersion(u@),
            LaunchAction::ReadVersionBody => LaunchActionView::ReadVersionBody,
            LaunchAction::CheckInstalled(p) => LaunchActionView::CheckInstalled(p@),
            LaunchAction::ReadLocalVersion(p) => LaunchActionView::ReadLocalVersion(p@),
            LaunchAction::Install(f, _) => LaunchActionView::Install(f.plan()),
            LaunchAction::StartBridge(f, _) => LaunchActionView::StartBridge(f.install_dir()),
            LaunchAction::ReadEnv(n) => LaunchActionView::ReadEnv(n@),
            LaunchAction::Spawn(c) => LaunchActionView::Spawn(c@),
            LaunchAction::WaitLauncher => LaunchActionView::WaitLauncher,
            LaunchAction::StopBridge => LaunchActionView::StopBridge,
            LaunchAction::Finish(r) => LaunchActionView::Finish(result_view(*r)),
        }
    }
}

/// Whether the install or bridge start that an action hands out is fresh:
/// well formed, not begun, and its first step is the one handed with it.
pub open spec fn hands_fresh_machines(a: &LaunchAction) -> bool {
    match a {
        LaunchAction::Install(f, first) => {
            &&& f.wf()
            &&& !f.is_finished()
            &&& f.pos() == 0
            &&& f.history() == Seq::<OutcomeView>::empty()
            &&& first@ == install_script(f.plan())[0]
        },
        LaunchAction::StartBridge(f, first) => {
            &&& f.wf()
            &&& f.stage() == BridgeStage::CheckingExecutable
            &&& first@ == BridgeActionView::CheckFile(
                join_path_spec(f.install_dir(), DISCORD_BRIDGE_FILENAME@),
            )
        },
        _ => true,
    }
}

/// The outcome of a piece of work, handed back to the launch.
pub enum LaunchEvent {
    /// The version request was answered with this status code, shown as this text.
    Response { status_code: u16, status_text: String },
    /// The body of the version file.
    Body(String),
    /// Whether the launcher binary exists.
    Found(bool),
    /// The text of the local version file.
    LocalVersion(String),
    /// The local version file does not exist.
    NotFound,
    /// The work failed, with this message.
    Failed(String),
    /// The install is over, with this result.
    InstallFinished(Result<(), InstallError>),
    /// The bridge start is over: whether a bridge process runs.
    BridgeFinished(bool),
    /// The value of the environment variable, if set.
    Env(Option<String>),
    /// The launcher process was started.
    Spawned,
    /// The launcher exited, with (`true`) or without success, its status shown as this text.
    Exited { success: bool, status_text: String },
    /// The bridge process was stopped.
    Stopped,
}

/// A `LaunchEvent` as plain values.
pub enum LaunchEventView {
    Response { status_code: u16, status_text: Seq<char> },
    Body(Seq<char>),
    Found(bool),
    LocalVersion(Seq<char>),
    NotFound,
    Failed(Seq<char>),
    InstallFinished(Result<(), InstallErrorView>),
    BridgeFinished(bool),
    Env(Option<Seq<char>>),
    Spawned,
    Exited { success: bool, status_text: Seq<char> },
    Stopped,
}

impl View for LaunchEvent {
    type V = LaunchEventView;

    open spec fn view(&self) -> LaunchEventView {
        match self {
            LaunchEvent::Response { status_code, status_text } => LaunchEventView::Response {
                status_code: *status_code,
                status_text: status_text@,
            },
            LaunchEvent::Body(b) => LaunchEventView::Body(b@),
            LaunchEvent::Found(b) => LaunchEventView::Found(*b),
            LaunchEvent::LocalVersion(v) => LaunchEventView::LocalVersion(v@),
            LaunchEvent::NotFound => LaunchEventView::NotFound,
            LaunchEvent::Failed(m) => LaunchEventView::Failed(m@),
            LaunchEvent::InstallFinished(r) => LaunchEventView::InstallFinished(
                match r {
                    Ok(()) => Ok(()),
                    Err(e) => Err(e@),
                },
            ),
            LaunchEvent::BridgeFinished(b) => LaunchEventView::BridgeFinished(*b),
            LaunchEvent::Env(v) => LaunchEventView::Env(
                match v {
                    Some(s) => Some(s@),
                    None => None,
                },
            ),
            LaunchEvent::Spawned => LaunchEventView::Spawned,
            LaunchEvent::Exited { success, status_text } => LaunchEventView::Exited {
                success: *success,
                status_text: status_text@,
            },
            LaunchEvent::Stopped => LaunchEventView::Stopped,
        }
    }
}

/// Where a launch stands: which outcome it awaits.
#[derive(Debug, Clone, Copy, PartialEq, Eq, Structural)]
pub enum LaunchStage {
    CheckingInstalled,
    FetchingVersion,
    ReadingVersionBody,
    ReadingLocalVersion,
    Installing,
    StartingBridge,
    ReadingPreload,
    Spawning,
    Waiting,
    StoppingBridge,
    Finished,
}

/// Whether `e` is an outcome of the work asked for in `stage`.
pub open spec fn fits(stage: LaunchStage, e: LaunchEventView) -> bool {
    match stage {
        LaunchStage::CheckingInstalled => e is Found || e is Failed,
        LaunchStage::FetchingVersion => e is Response || e is Failed,
        LaunchStage::ReadingVersionBody => e is Body || e is Failed,
        LaunchStage::ReadingLocalVersion => e is LocalVersion || e is NotFound || e is Failed,
        LaunchStage::Installing => e is InstallFinished,
        LaunchStage::StartingBridge => e is BridgeFinished,
        LaunchStage::ReadingPreload => e is Env,
        LaunchStage::Spawning => e is Spawned || e is Failed,
        LaunchStage::Waiting => e is Exited || e is Failed,
        LaunchStage::StoppingBridge => e is Stopped,
        LaunchStage::Finished => false,
    }
}

/// What stays fixed during a launch.
pub struct LaunchConfig {
    pub install_dir: Seq<char>,
    pub skip_update: bool,
    pub aria_source: AriaSourceView,
    pub web_release_url: Seq<char>,
    pub release_asset: Seq<char>,
}

/// What a launch has learnt so far.
pub struct LaunchState {
    pub stage: LaunchStage,
    /// The release, once its version is known.
    pub release: Option<ReleaseView>,
    /// Whether the launcher binary was found.
    pub installed: bool,
    /// Whether a bridge process runs.
    pub bridge_running: bool,
    /// The launch's result, while the bridge is being stopped.
    pub pending: Option<Result<(), LaunchErrorView>>,
}

/// The state in which a launch begins, before its first piece of work.
pub open spec fn initial_state() -> LaunchState {
    LaunchState {
        stage: LaunchStage::CheckingInstalled,
        release: None,
        installed: false,
        bridge_running: false,
        pending: None,
    }
}

/// How a launch begins. With updates skipped it first checks for the launcher
/// binary (a present launcher is then run without asking for the remote
/// version); otherwise it first asks for the remote version, as the check
/// for the binary only matters once the version is known.
pub open spec fn launch_start(c: LaunchConfig) -> (LaunchState, LaunchActionView) {
    if c.skip_update {
        (
            initial_state(),
            LaunchActionView::CheckInstalled(join_path_spec(c.install_dir, LAUNCHER_BIN_FILENAME@)),
        )
    } else {
        to_fetch(c, initial_state())
    }
}

/// Index, among a launch's outcomes, of the body of the remote version file:
/// after the binary check and the response with updates skipped, after the
/// response otherwise.
pub open spec fn body_index(c: LaunchConfig) -> int {
    if c.skip_update {
        2
    } else {
        1
    }
}

/// Where the release tarball is: the release asset resolved against the web
/// release URL.
pub open spec fn release_url(c: LaunchConfig) -> Seq<char> {
    url_join(c.web_release_url, c.release_asset)->Ok_0
}

/// A launch that ends with `r`.
pub open spec fn finish_with(s: LaunchState, r: Result<(), LaunchErrorView>) -> (LaunchState, LaunchActionView) {
    (LaunchState { stage: LaunchStage::Finished, ..s }, LaunchActionView::Finish(r))
}

/// A launch that goes on to start the bridge.
pub open spec fn to_bridge(c: LaunchConfig, s: LaunchState) -> (LaunchState, LaunchActionView) {
    (
        LaunchState { stage: LaunchStage::StartingBridge, ..s },
        LaunchActionView::StartBridge(c.install_dir),
    )
}

/// A launch that goes on to ask for the remote version: the release tarball
/// and the `version` file are resolved against the web release URL, and the
/// launch ends where either cannot be.
pub open spec fn to_fetch(c: LaunchConfig, s: LaunchState) -> (LaunchState, LaunchActionView) {
    match url_join(c.web_release_url, c.release_asset) {
        Err(m) => finish_with(s, Err(LaunchErrorView::InvalidUrl(m))),
        Ok(_) => match url_join(c.web_release_url, VERSION_REMOTE_FILENAME@) {
            Err(m) => finish_with(s, Err(LaunchErrorView::InvalidUrl(m))),
            Ok(version_url) => (
                LaunchState { stage: LaunchStage::FetchingVersion, ..s },
                LaunchActionView::FetchVersion(version_url),
            ),
        },
    }
}

/// A launch that goes on to install the release; `is_update` where a local
/// version was read.
pub open spec fn to_install(c: LaunchConfig, s: LaunchState, is_update: bool) -> (LaunchState, LaunchActionView) {
    (
        LaunchState { stage: LaunchStage::Installing, ..s },
        LaunchActionView::Install(
            InstallPlanView {
                release: s.release.unwrap(),
                aria_source: c.aria_source,
                install_location: c.install_dir,
                is_update,
            },
        ),
    )
}

/// The result that the launcher's exit (or the failure to wait for it) gives.
pub open spec fn exit_result(e: LaunchEventView) -> Result<(), LaunchErrorView> {
    match e {
        LaunchEventView::Exited { success, status_text } => if success {
            Ok(())
        } else {
            Err(LaunchErrorView::LauncherFailed(status_text))
        },
        LaunchEventView::Failed(m) => Err(LaunchErrorView::Io(m)),
        _ => Ok(()),
    }
}

/// The state and action that follow the outcome `e` of the current work.
pub open spec fn launch_next(c: LaunchConfig, s: LaunchState, e: LaunchEventView) -> (LaunchState, LaunchActionView) {
    match s.stage {
        LaunchStage::CheckingInstalled => match e {
            LaunchEventView::Found(found) => {
                let s2 = LaunchState { installed: found, ..s };
                if found && c.skip_update {
                    to_bridge(c, s2)
                } else if c.skip_update {
                    to_fetch(c, s2)
                } else {
                    (
                        LaunchState { stage: LaunchStage::ReadingLocalVersion, ..s2 },
                        LaunchActionView::ReadLocalVersion(
                            join_path_spec(c.install_dir, VERSIONDATA_LOCAL_FILENAME@),
                        ),
                    )
                }
            },
            LaunchEventView::Failed(m) => finish_with(s, Err(LaunchErrorView::Io(m))),
            _ => finish_with(s, Ok(())),
        },
        LaunchStage::FetchingVersion => match e {
            LaunchEventView::Response { status_code, status_text } => if is_success_status(
                status_code,
            ) {
                (
                    LaunchState { stage: LaunchStage::ReadingVersionBody, ..s },
                    LaunchActionView::ReadVersionBody,
                )
            } else {
                finish_with(s, Err(LaunchErrorView::NoVersionInfo(status_text)))
            },
            LaunchEventView::Failed(m) => finish_with(s, Err(LaunchErrorView::Io(m))),
            _ => finish_with(s, Ok(())),
        },
        LaunchStage::ReadingVersionBody => match e {
            LaunchEventView::Body(b) => {
                let s2 = LaunchState {
                    release: Some(ReleaseView { download_url: release_url(c), version: trim_spec(b) }),
                    ..s
                };
                if c.skip_update {
                    (
                        LaunchState { stage: LaunchStage::ReadingLocalVersion, ..s2 },
                        LaunchActionView::ReadLocalVersion(
                            join_path_spec(c.install_dir, VERSIONDATA_LOCAL_FILENAME@),
                        ),
                    )
                } else {
                    (
                        LaunchState { stage: LaunchStage::CheckingInstalled, ..s2 },
                        LaunchActionView::CheckInstalled(
                            join_path_spec(c.install_dir, LAUNCHER_BIN_FILENAME@),
                        ),
                    )
                }
            },
            LaunchEventView::Failed(m) => finish_with(s, Err(LaunchErrorView::Io(m))),
            _ => finish_with(s, Ok(())),
        },
        LaunchStage::ReadingLocalVersion => match e {
            LaunchEventView::LocalVersion(local) => if s.installed && local
                == s.release.unwrap().version {
                to_bridge(c, s)
            } else {
                to_install(c, s, true)
            },
            LaunchEventView::NotFound => to_install(c, s, false),
            _ => to_bridge(c, s),
        },
        LaunchStage::Installing => match e {
            LaunchEventView::InstallFinished(Err(err)) => finish_with(
                s,
                Err(LaunchErrorView::Install(err)),
            ),
            _ => to_bridge(c, s),
        },
        LaunchStage::StartingBridge => (
            LaunchState {
                stage: LaunchStage::ReadingPreload,
                bridge_running: e == LaunchEventView::BridgeFinished(true),
                ..s
            },
            LaunchActionView::ReadEnv("LD_PRELOAD"@),
        ),
        LaunchStage::ReadingPreload => (
            LaunchState { stage: LaunchStage::Spawning, ..s },
            LaunchActionView::Spawn(
                launcher_command_spec(
                    c.install_dir,
                    match e {
                        LaunchEventView::Env(v) => v,
                        _ => None,
                    },
                ),
            ),
        ),
        LaunchStage::Spawning => match e {
            LaunchEventView::Failed(m) => finish_with(s, Err(LaunchErrorView::Io(m))),
            _ => (LaunchState { stage: LaunchStage::Waiting, ..s }, LaunchActionView::WaitLauncher),
        },
        LaunchStage::Waiting => if s.bridge_running {
            (
                LaunchState {
                    stage: LaunchStage::StoppingBridge,
                    pending: Some(exit_result(e)),
                    ..s
                },
                LaunchActionView::StopBridge,
            )
        } else {
            finish_with(s, exit_result(e))
        },
        LaunchStage::StoppingBridge => finish_with(
            LaunchState { pending: None, ..s },
            s.pending.unwrap(),
        ),
        LaunchStage::Finished => finish_with(s, Ok(())),
    }
}

/// The release that the outcomes `h` of a launch make known: where the
/// outcome at `body_index` is the body of the remote version file, the
/// release tarball with that body without surrounding white space as its
/// version.
pub open spec fn release_from_history(c: LaunchConfig, h: Seq<LaunchEventView>) -> Option<ReleaseView> {
    let i = body_index(c);
    if h.len() > i && h[i] is Body {
        Some(ReleaseView { download_url: release_url(c), version: trim_spec(h[i]->Body_0) })
    } else {
        None
    }
}

/// A launch in progress.
pub struct LaunchFlow {
    install_dir: String,
    skip_update: bool,
    web_release_url: WebUrl,
    release_asset: String,
    /// Handed to the install, if one runs.
    aria_source: Option<AriaSource>,
    /// The release URLs, while the remote version is being read.
    query: Option<VersionQuery>,
    /// The release, once its version is known, until an install takes it.
    release: Option<ReleaseAssetInfo>,
    stage: LaunchStage,
    installed: bool,
    bridge_running: bool,
    pending: Option<Result<(), LaunchError>>,
    aria_view: Ghost<AriaSourceView>,
    release_view: Ghost<Option<ReleaseView>>,
    history: Ghost<Seq<LaunchEventView>>,
}

impl LaunchFlow {
    pub closed spec fn config(&self) -> LaunchConfig {
        LaunchConfig {
            install_dir: self.install_dir@,
            skip_update: self.skip_update,
            aria_source: self.aria_view@,
            web_release_url: self.web_release_url@,
            release_asset: self.release_asset@,
        }
    }

    pub closed spec fn state(&self) -> LaunchState {
        LaunchState {
            stage: self.stage,
            release: self.release_view@,
            installed: self.installed,
            bridge_running: self.bridge_running,
            pending: match self.pending {
                Some(r) => Some(result_view(r)),
                None => None,
            },
        }
    }

    /// The outcomes handed back so far.
    pub closed spec fn history(&self) -> Seq<LaunchEventView> {
        self.history@
    }

    /// The parts that the launch still has to hand out are at hand.
    pub closed spec fn holds_parts(&self) -> bool {
        let st = self.stage;
        let reading_remote = st == LaunchStage::FetchingVersion || st
            == LaunchStage::ReadingVersionBody;
        let before_install = st == LaunchStage::CheckingInstalled || reading_remote || st
            == LaunchStage::ReadingLocalVersion;
        &&& reading_remote ==> (self.query matches Some(q) && url_join(
            self.web_release_url@,
            self.release_asset@,
        ) == Ok::<Seq<char>, Seq<char>>(q.release_url@))
        &&& before_install ==> (self.aria_source matches Some(a) && a@ == self.aria_view@)
        &&& (st == LaunchStage::ReadingLocalVersion || (st == LaunchStage::CheckingInstalled
            && self.release_view@ is Some)) ==> (self.release matches Some(r) && self.release_view@
            == Some(r@))
        &&& st == LaunchStage::StoppingBridge ==> self.pending is Some
    }

    /// The launch's own invariant: the parts it still has to hand out are
    /// at hand, the release it knows is the one its outcomes made known (the
    /// body of the remote version file, where the version was read), and a launch that is stopping the bridge holds the result
    /// that the launcher's exit gave.
    pub open spec fn wf(&self) -> bool {
        let s = self.state();
        let c = self.config();
        let h = self.history();
        let st = s.stage;
        &&& self.holds_parts()
        &&& (st == LaunchStage::CheckingInstalled ==> if c.skip_update {
            h.len() == 0
        } else {
            h.len() == 2 && h[1] is Body
        })
        &&& (st == LaunchStage::FetchingVersion ==> h.len() == body_index(c) - 1)
        &&& (st == LaunchStage::ReadingVersionBody ==> h.len() == body_index(c))
        &&& (st == LaunchStage::ReadingLocalVersion || st == LaunchStage::Installing) ==> (h.len()
            > body_index(c) && h[body_index(c)] is Body)
        &&& st != LaunchStage::Finished ==> s.release == release_from_history(c, h)
        &&& st == LaunchStage::StoppingBridge ==> {
            &&& h.len() >= 1
            &&& (h.last() is Exited || h.last() is Failed)
            &&& s.pending == Some(exit_result(h.last()))
        }
    }
}

impl LaunchFlow {
    /// Ends the launch with `r`.
    fn finish(&mut self, r: Result<(), LaunchError>) -> (a: LaunchAction)
        ensures
            final(self).state() == (LaunchState { stage: LaunchStage::Finished, ..old(self).state() }),
            final(self).config() == old(self).config(),
            final(self).history() == old(self).history(),
            final(self).holds_parts(),
            a@ == LaunchActionView::Finish(result_view(r)),
    {
        self.stage = LaunchStage::Finished;
        LaunchAction::Finish(r)
    }

    /// Goes on to start the bridge.
    fn bridge(&mut self) -> (a: LaunchAction)
        requires
            old(self).holds_parts(),
            old(self).stage != LaunchStage::StoppingBridge,
        ensures
            final(self).state() == (LaunchState {
                stage: LaunchStage::StartingBridge,
                ..old(self).state()
            }),
            final(self).config() == old(self).config(),
            final(self).history() == old(self).history(),
            final(self).holds_parts(),
            a@ == LaunchActionView::StartBridge(old(self).config().install_dir),
            hands_fresh_machines(&a),
    {
        self.stage = LaunchStage::StartingBridge;
        let (f, first) = start_discord_bridge(self.install_dir.as_str());
        LaunchAction::StartBridge(f, first)
    }

    /// Goes on to ask for the remote version.
    fn fetch(&mut self) -> (a: LaunchAction)
        requires
            old(self).holds_parts(),
            old(self).stage == LaunchStage::CheckingInstalled,
            old(self).release_view@ is None,
        ensures
            (final(self).state(), a@) == to_fetch(old(self).config(), old(self).state()),
            final(self).config() == old(self).config(),
            final(self).history() == old(self).history(),
            final(self).holds_parts(),
            hands_fresh_machines(&a),
    {
        match ReleaseAssetInfo::from_url(
            &self.web_release_url,
            self.release_asset.as_str(),
            VERSION_REMOTE_FILENAME,
        ) {
            Ok(query) => {
                let version_url = String::from_str(query.version_url.as_str());
                self.query = Some(query);
                self.stage = LaunchStage::FetchingVersion;
                LaunchAction::FetchVersion(version_url)
            },
            Err(e) => self.finish(Err(e)),
        }
    }

    /// Goes on to install the release.
    fn install(&mut self, is_update: bool) -> (a: LaunchAction)
        requires
            old(self).holds_parts(),
            old(self).state().stage == LaunchStage::ReadingLocalVersion,
        ensures
            final(self).state() == (LaunchState {
                stage: LaunchStage::Installing,
                ..old(self).state()
            }),
            final(self).config() == old(self).config(),
            final(self).history() == old(self).history(),
            final(self).holds_parts(),
            a@ == LaunchActionView::Install(
                InstallPlanView {
                    release: old(self).state().release.unwrap(),
                    aria_source: old(self).config().aria_source,
                    install_location: old(self).config().install_dir,
                    is_update,
                },
            ),
            hands_fresh_machines(&a),
    {
        let release = self.release.take().unwrap();
        let aria = self.aria_source.take().unwrap();
        self.stage = LaunchStage::Installing;
        let (f, first) = install_or_update_xlcore(
            release,
            aria,
            String::from_str(self.install_dir.as_str()),
            is_update,
        );
        LaunchAction::Install(f, first)
    }

    /// Whether `event` is an outcome of the work this launch asked for.
    pub fn expects(&self, event: &LaunchEvent) -> (b: bool)
        ensures
            b == fits(self.state().stage, event@),
    {
        match self.stage {
            LaunchStage::CheckingInstalled => matches!(event, LaunchEvent::Found(_) | LaunchEvent::Failed(_)),
            LaunchStage::FetchingVersion => matches!(event, LaunchEvent::Response { .. } | LaunchEvent::Failed(_)),
            LaunchStage::ReadingVersionBody => matches!(event, LaunchEvent::Body(_) | LaunchEvent::Failed(_)),
            LaunchStage::ReadingLocalVersion => matches!(
                event,
                LaunchEvent::LocalVersion(_) | LaunchEvent::NotFound | LaunchEvent::Failed(_)
            ),
            LaunchStage::Installing => matches!(event, LaunchEvent::InstallFinished(_)),
            LaunchStage::StartingBridge => matches!(event, LaunchEvent::BridgeFinished(_)),
            LaunchStage::ReadingPreload => matches!(event, LaunchEvent::Env(_)),
            LaunchStage::Spawning => matches!(event, LaunchEvent::Spawned | LaunchEvent::Failed(_)),
            LaunchStage::Waiting => matches!(event, LaunchEvent::Exited { .. } | LaunchEvent::Failed(_)),
            LaunchStage::StoppingBridge => matches!(event, LaunchEvent::Stopped),
            LaunchStage::Finished => false,
        }
    }

    /// Hands back the outcome of the current work and returns the next piece
    /// of work.
    pub fn step(&mut self, event: LaunchEvent) -> (a: LaunchAction)
        requires
            old(self).wf(),
            fits(old(self).state().stage, event@),
        ensures
            final(self).wf(),
            final(self).config() == old(self).config(),
            final(self).history() == old(self).history().push(event@),
            (final(self).state(), a@) == launch_next(old(self).config(), old(self).state(), event@),
            hands_fresh_machines(&a),
    {
        let ghost e = event@;
        let ghost old_h = self.history@;
        proof {
            self.history@ = self.history@.push(e);
        }
        let ghost h = self.history@;
        assert(h.last() == e);
        assert(forall|j: int| 0 <= j < old_h.len() ==> h[j] == old_h[j]);
        match self.stage {
            LaunchStage::CheckingInstalled => match event {
                LaunchEvent::Found(found) => {
                    self.installed = found;
                    if found && self.skip_update {
                        self.bridge()
                    } else if self.skip_update {
                        self.fetch()
                    } else {
                        self.stage = LaunchStage::ReadingLocalVersion;
                        LaunchAction::ReadLocalVersion(
                            join_path(self.install_dir.as_str(), VERSIONDATA_LOCAL_FILENAME),
                        )
                    }
                },
                LaunchEvent::Failed(m) => self.finish(Err(LaunchError::Io(m))),
                _ => self.finish(Ok(())),
            },
            LaunchStage::FetchingVersion => match event {
                LaunchEvent::Response { status_code, status_text } => {
                    let q = self.query.take().unwrap();
                    let checked = q.check_status(status_code, status_text.as_str());
                    self.query = Some(q);
                    match checked {
                        Ok(()) => {
                            self.stage = LaunchStage::ReadingVersionBody;
                            LaunchAction::ReadVersionBody
                        },
                        Err(err) => self.finish(Err(err)),
                    }
                },
                LaunchEvent::Failed(m) => self.finish(Err(LaunchError::Io(m))),
                _ => self.finish(Ok(())),
            },
            LaunchStage::ReadingVersionBody => match event {
                LaunchEvent::Body(body) => {
                    let q = self.query.take().unwrap();
                    let release = q.finish(body.as_str());
                    proof {
                        self.release_view@ = Some(release@);
                    }
                    self.release = Some(release);
                    if self.skip_update {
                        self.stage = LaunchStage::ReadingLocalVersion;
                        LaunchAction::ReadLocalVersion(
                            join_path(self.install_dir.as_str(), VERSIONDATA_LOCAL_FILENAME),
                        )
                    } else {
                        self.stage = LaunchStage::CheckingInstalled;
                        LaunchAction::CheckInstalled(
                            join_path(self.install_dir.as_str(), LAUNCHER_BIN_FILENAME),
                        )
                    }
                },
                LaunchEvent::Failed(m) => self.finish(Err(LaunchError::Io(m))),
                _ => self.finish(Ok(())),
            },
            LaunchStage::ReadingLocalVersion => match event {
                LaunchEvent::LocalVersion(local) => {
                    let same = match &self.release {
                        Some(r) => local == r.version,
                        None => false,
                    };
                    if self.installed && same {
                        self.bridge()
                    } else {
                        self.install(true)
                    }
                },
                LaunchEvent::NotFound => self.install(false),
                _ => self.bridge(),
            },
            LaunchStage::Installing => match event {
                LaunchEvent::InstallFinished(Err(err)) => self.finish(
                    Err(LaunchError::Install(err)),
                ),
                _ => self.bridge(),
            },
            LaunchStage::StartingBridge => {
                self.bridge_running = match event {
                    LaunchEvent::BridgeFinished(b) => b,
                    _ => false,
                };
                self.stage = LaunchStage::ReadingPreload;
                LaunchAction::ReadEnv(String::from_str("LD_PRELOAD"))
            },
            LaunchStage::ReadingPreload => {
                let preload: Option<&str> = match &event {
                    LaunchEvent::Env(Some(v)) => Some(v.as_str()),
                    _ => None,
                };
                let c = launcher_command(self.install_dir.as_str(), preload);
                self.stage = LaunchStage::Spawning;
                LaunchAction::Spawn(c)
            },
            LaunchStage::Spawning => match event {
                LaunchEvent::Failed(m) => self.finish(Err(LaunchError::Io(m))),
                _ => {
                    self.stage = LaunchStage::Waiting;
                    LaunchAction::WaitLauncher
                },
            },
            LaunchStage::Waiting => {
                let r = match event {
                    LaunchEvent::Exited { success, status_text } => if success {
                        Ok(())
                    } else {
                        Err(LaunchError::LauncherFailed(status_text))
                    },
                    LaunchEvent::Failed(m) => Err(LaunchError::Io(m)),
                    _ => Ok(()),
                };
                if self.bridge_running {
                    self.pending = Some(r);
                    self.stage = LaunchStage::StoppingBridge;
                    LaunchAction::StopBridge
                } else {
                    self.finish(r)
                }
            },
            LaunchStage::StoppingBridge => {
                let r = self.pending.take().unwrap();
                self.finish(r)
            },
            LaunchStage::Finished => self.finish(Ok(())),
        }
    }
}

impl LaunchCommand {
    /// Starts the launch (see `launch_start`): with updates skipped its first
    /// step checks for the launcher binary; otherwise it resolves the release
    /// tarball and the `version` file against the web release URL and asks
    /// for the version file, ending at once where a URL cannot be resolved.
    pub fn run(self) -> (r: (LaunchFlow, LaunchAction))
        ensures
            r.0.wf(),
            r.0.config() == (LaunchConfig {
                install_dir: self@.install_dir,
                skip_update: self@.skip_update,
                aria_source: self@.aria_source,
                web_release_url: self@.web_release_url,
                release_asset: self@.release_asset,
            }),
            (r.0.state(), r.1@) == launch_start(r.0.config()),
            r.0.history() == Seq::<LaunchEventView>::empty(),
            hands_fresh_machines(&r.1),
    {
        let LaunchCommand {
            xlcore_release_asset,
            xlcore_web_release_url,
            xlcore_install_directory,
            aria_source,
            skip_update,
        } = self;
        let ghost aria_view = aria_source@;
        let mut flow = LaunchFlow {
            install_dir: xlcore_install_directory,
            skip_update,
            web_release_url: xlcore_web_release_url,
            release_asset: xlcore_release_asset,
            aria_source: Some(aria_source),
            query: None,
            release: None,
            stage: LaunchStage::CheckingInstalled,
            installed: false,
            bridge_running: false,
            pending: None,
            aria_view: Ghost(aria_view),
            release_view: Ghost(None),
            history: Ghost(Seq::empty()),
        };
        if skip_update {
            let check = join_path(flow.install_dir.as_str(), LAUNCHER_BIN_FILENAME);
            (flow, LaunchAction::CheckInstalled(check))
        } else {
            let a = flow.fetch();
            (flow, a)
        }
    }
}

/// Skipping updates keeps a launch offline: with updates skipped a launch
/// first checks for the launcher binary, and once the binary is found it
/// goes straight on to the bridge without asking for the remote version;
/// where the binary is missing it asks for the remote version (ending where
/// the release URLs cannot be resolved), so skipping updates does not keep
/// a missing launcher from being installed. Without skipping, a launch asks
/// for the remote version before anything else.
pub proof fn lemma_skip_update_is_offline(c: LaunchConfig, found: bool)
    ensures
        !c.skip_update ==> launch_start(c) == to_fetch(c, initial_state()),
        c.skip_update ==> ({
            let (s0, a0) = launch_start(c);
            let (s1, a1) = launch_next(c, s0, LaunchEventView::Found(found));
            &&& a0 == LaunchActionView::CheckInstalled(
                join_path_spec(c.install_dir, LAUNCHER_BIN_FILENAME@),
            )
            &&& s1.installed == found
            &&& found ==> a1 == LaunchActionView::StartBridge(c.install_dir)
            &&& !found ==> (s1, a1) == to_fetch(c, LaunchState { installed: false, ..initial_state() })
        }),
        to_fetch(c, initial_state()).1 is FetchVersion <==> (url_join(
            c.web_release_url,
            c.release_asset,
        ) is Ok && url_join(c.web_release_url, VERSION_REMOTE_FILENAME@) is Ok),
{
}

/// The update policy, once the remote version is known. A local version
/// equal to the release's, with the launcher binary present, means up to
/// date: no install. A different one, or a missing binary, means an update;
/// a missing version file a fresh install; any other failure to read it no
/// install.
pub proof fn lemma_local_version_policy(c: LaunchConfig, s: LaunchState, local: Seq<char>, m: Seq<char>)
    requires
        s.stage == LaunchStage::ReadingLocalVersion,
        s.release is Some,
    ensures
        launch_next(c, s, LaunchEventView::LocalVersion(local)).1 == if s.installed && local
            == s.release.unwrap().version {
            LaunchActionView::StartBridge(c.install_dir)
        } else {
            LaunchActionView::Install(
                InstallPlanView {
                    release: s.release.unwrap(),
                    aria_source: c.aria_source,
                    install_location: c.install_dir,
                    is_update: true,
                },
            )
        },
        launch_next(c, s, LaunchEventView::NotFound).1 == LaunchActionView::Install(
            InstallPlanView {
                release: s.release.unwrap(),
                aria_source: c.aria_source,
                install_location: c.install_dir,
                is_update: false,
            },
        ),
        launch_next(c, s, LaunchEventView::Failed(m)).1 == LaunchActionView::StartBridge(
            c.install_dir,
        ),
{
}

/// An install is handed the release whose version is the body of the remote
/// version file without surrounding white space, the configured `aria2c`
/// source and the installation directory; it is an update exactly where a
/// local version was read.
pub proof fn lemma_install_gets_remote_version(flow: LaunchFlow, e: LaunchEventView)
    requires
        flow.wf(),
        fits(flow.state().stage, e),
        launch_next(flow.config(), flow.state(), e).1 is Install,
    ensures
        launch_next(flow.config(), flow.state(), e).1 == LaunchActionView::Install(
            InstallPlanView {
                release: ReleaseView {
                    download_url: release_url(flow.config()),
                    version: trim_spec(flow.history()[body_index(flow.config())]->Body_0),
                },
                aria_source: flow.config().aria_source,
                install_location: flow.config().install_dir,
                is_update: e is LocalVersion,
            },
        ),
{
}

/// The bridge never stands in the way of the launcher: whatever the bridge
/// start gave, the launch goes on to read `LD_PRELOAD` and then starts the
/// launcher of the installation.
pub proof fn lemma_launcher_started_whatever_the_bridge(
    c: LaunchConfig,
    s: LaunchState,
    started: bool,
    ld_preload: Option<Seq<char>>,
)
    requires
        s.stage == LaunchStage::StartingBridge,
    ensures
        ({
            let (s2, a) = launch_next(c, s, LaunchEventView::BridgeFinished(started));
            &&& a == LaunchActionView::ReadEnv("LD_PRELOAD"@)
            &&& s2.bridge_running == started
            &&& launch_next(c, s2, LaunchEventView::Env(ld_preload)).1 == LaunchActionView::Spawn(
                launcher_command_spec(c.install_dir, ld_preload),
            )
        }),
{
}

/// Whether `e` says that the launcher exited with success.
pub open spec fn exited_with_success(e: LaunchEventView) -> bool {
    match e {
        LaunchEventView::Exited { success, .. } => success,
        _ => false,
    }
}

/// A launch ends with success only where the launcher was run and exited
/// with success.
pub proof fn lemma_success_means_launcher_succeeded(flow: LaunchFlow, e: LaunchEventView)
    requires
        flow.wf(),
        fits(flow.state().stage, e),
        launch_next(flow.config(), flow.state(), e).1 == LaunchActionView::Finish(Ok(())),
    ensures
        (flow.state().stage == LaunchStage::Waiting && exited_with_success(e)) || (
        flow.state().stage == LaunchStage::StoppingBridge && exited_with_success(
            flow.history().last(),
        )),
{
}

/// A bridge that was started is stopped before the launch ends once the
/// launcher has exited, and the launch then ends with the result that the
/// launcher's exit gave.
pub proof fn lemma_bridge_stopped_before_end(c: LaunchConfig, s: LaunchState, e: LaunchEventView)
    requires
        s.stage == LaunchStage::Waiting,
        s.bridge_running,
        fits(s.stage, e),
    ensures
        ({
            let (s2, a) = launch_next(c, s, e);
            &&& a == LaunchActionView::StopBridge
            &&& launch_next(c, s2, LaunchEventView::Stopped).1 == LaunchActionView::Finish(
                exit_result(e),
            )
        }),
{
}

/// A launch after a finished install installs nothing while the remote
/// version stays the same. Take an install of `plan` into the installation
/// of `c`, whose step `k` writes the version file, and a later launch with
/// updates not skipped that gets the remote version `body` (whose trimmed
/// text is the installed release's version), finds the launcher binary and
/// reads back what that step wrote: the later launch reads the very file the
/// install wrote, and goes on to the bridge without an install.
pub proof fn lemma_second_launch_installs_nothing(
    plan: InstallPlanView,
    k: int,
    c: LaunchConfig,
    status_code: u16,
    status_text: Seq<char>,
    body: Seq<char>,
)
    requires
        0 <= k < install_script(plan).len(),
        install_script(plan)[k] is WriteVersion,
        plan.install_location == c.install_dir,
        !c.skip_update,
        trim_spec(body) == plan.release.version,
        is_success_status(status_code),
        url_join(c.web_release_url, c.release_asset) is Ok,
        url_join(c.web_release_url, VERSION_REMOTE_FILENAME@) is Ok,
    ensures
        ({
            let written = install_script(plan)[k];
            let (s0, a0) = launch_start(c);
            let (s1, a1) = launch_next(
                c,
                s0,
                LaunchEventView::Response { status_code, status_text },
            );
            let (s2, a2) = launch_next(c, s1, LaunchEventView::Body(body));
            let (s3, a3) = launch_next(c, s2, LaunchEventView::Found(true));
            let (s4, a4) = launch_next(
                c,
                s3,
                LaunchEventView::LocalVersion(written->WriteVersion_contents),
            );
            &&& a0 is FetchVersion
            &&& a1 == LaunchActionView::ReadVersionBody
            &&& a2 == LaunchActionView::CheckInstalled(
                join_path_spec(c.install_dir, LAUNCHER_BIN_FILENAME@),
            )
            &&& a3 == LaunchActionView::ReadLocalVersion(written->WriteVersion_path)
            &&& a4 == LaunchActionView::StartBridge(c.install_dir)
        }),
{
    lemma_write_version_step(plan, k);
}

/// How a launch answers the outcome of each piece of work that can fail:
/// a failed install ends the launch with the install's error (the bridge and
/// the launcher are never started after it) and a successful one goes on to
/// the bridge; a failed version request, version read, binary check or
/// launcher start ends it with the failure's message; a version request
/// answered with a status outside `200..=299` ends it with that status; the
/// launcher's exit decides the result where no bridge runs, success only
/// for an exit with success.
pub proof fn lemma_launch_outcomes(
    c: LaunchConfig,
    s: LaunchState,
    err: InstallErrorView,
    m: Seq<char>,
    code: u16,
    text: Seq<char>,
    success: bool,
)
    ensures
        s.stage == LaunchStage::Installing ==> {
            &&& launch_next(c, s, LaunchEventView::InstallFinished(Err(err))).1
                == LaunchActionView::Finish(Err(LaunchErrorView::Install(err)))
            &&& launch_next(c, s, LaunchEventView::InstallFinished(Err(err))).0.stage
                == LaunchStage::Finished
            &&& launch_next(c, s, LaunchEventView::InstallFinished(Ok(()))).1
                == LaunchActionView::StartBridge(c.install_dir)
        },
        (s.stage == LaunchStage::FetchingVersion || s.stage == LaunchStage::ReadingVersionBody
            || s.stage == LaunchStage::CheckingInstalled || s.stage == LaunchStage::Spawning)
            ==> launch_next(c, s, LaunchEventView::Failed(m)).1 == LaunchActionView::Finish(
            Err(LaunchErrorView::Io(m)),
        ),
        s.stage == LaunchStage::FetchingVersion ==> launch_next(
            c,
            s,
            LaunchEventView::Response { status_code: code, status_text: text },
        ).1 == if 200 <= code && code <= 299 {
            LaunchActionView::ReadVersionBody
        } else {
            LaunchActionView::Finish(Err(LaunchErrorView::NoVersionInfo(text)))
        },
        s.stage == LaunchStage::Spawning ==> launch_next(c, s, LaunchEventView::Spawned).1
            == LaunchActionView::WaitLauncher,
        (s.stage == LaunchStage::Waiting && s.bridge_running) ==> {
            let (s2, a) = launch_next(c, s, LaunchEventView::Exited { success, status_text: text });
            let (s3, a3) = launch_next(c, s, LaunchEventView::Failed(m));
            &&& a == LaunchActionView::StopBridge
            &&& a3 == LaunchActionView::StopBridge
            &&& launch_next(c, s2, LaunchEventView::Stopped).1 == LaunchActionView::Finish(
                if success {
                    Ok(())
                } else {
                    Err(LaunchErrorView::LauncherFailed(text))
                },
            )
            &&& launch_next(c, s3, LaunchEventView::Stopped).1 == LaunchActionView::Finish(
                Err(LaunchErrorView::Io(m)),
            )
        },
        (s.stage == LaunchStage::Waiting && !s.bridge_running) ==> {
            &&& launch_next(
                c,
                s,
                LaunchEventView::Exited { success, status_text: text },
            ).1 == LaunchActionView::Finish(
                if success {
                    Ok(())
                } else {
                    Err(LaunchErrorView::LauncherFailed(text))
                },
            )
            &&& launch_next(c, s, LaunchEventView::Failed(m)).1 == LaunchActionView::Finish(
                Err(LaunchErrorView::Io(m)),
            )
        },
{
}

/// Without skipping updates, a launch first requests the `version` file
/// resolved against the web release URL, where both that file and the
/// release tarball resolve; otherwise it ends at once with the message of
/// the first that does not (the release tarball is resolved first).
pub proof fn lemma_version_requested_first(c: LaunchConfig)
    requires
        !c.skip_update,
    ensures
        ({
            let a = launch_start(c).1;
            match (
                url_join(c.web_release_url, c.release_asset),
                url_join(c.web_release_url, VERSION_REMOTE_FILENAME@),
            ) {
                (Err(m), _) => a == LaunchActionView::Finish(Err(LaunchErrorView::InvalidUrl(m))),
                (Ok(_), Err(m)) => a == LaunchActionView::Finish(
                    Err(LaunchErrorView::InvalidUrl(m)),
                ),
                (Ok(_), Ok(v)) => a == LaunchActionView::FetchVersion(v),
            }
        }),
{
}

} // verus!
