//! Creating or overwriting an installation of the launcher, as a state
//! machine: each step names the work to do next, and the caller hands back
//! its outcome.

use vstd::prelude::*;

use crate::aria_source::{AriaSource, AriaSourceView};
use crate::error::{InstallError, InstallErrorView};
use crate::release::{ReleaseAssetInfo, ReleaseView};
use crate::text::{join_path, join_path_spec};

verus! {

/// Name of the launcher binary inside an installation.
pub const LAUNCHER_BIN_FILENAME: &'static str = "TruckersMP-Launcher";

/// Name of the `aria2c` binary inside an installation.
pub const ARIA2C_BIN_FILENAME: &'static str = "aria2c";

/// Name of the file that records the installed version.
pub const VERSIONDATA_LOCAL_FILENAME: &'static str = "versiondata";

/// What an install is asked to do.
#[derive(Debug)]
pub struct InstallPlan {
    pub release: ReleaseAssetInfo,
    pub aria_source: AriaSource,
    pub install_location: String,
    pub is_update: bool,
}

/// An `InstallPlan` as plain values.
pub struct InstallPlanView {
    pub release: ReleaseView,
    pub aria_source: AriaSourceView,
    pub install_location: Seq<char>,
    pub is_update: bool,
}

impl View for InstallPlan {
    type V = InstallPlanView;

    open spec fn view(&self) -> InstallPlanView {
        InstallPlanView {
            release: self.release@,
            aria_source: self.aria_source@,
            install_location: self.install_location@,
            is_update: self.is_update,
        }
    }
}

/// A piece of work that an install asks the caller to do.
#[derive(Debug)]
pub enum InstallAction {
    /// Show this progress text.
    Progress(String),
    /// Download the release tarball from this URL.
    DownloadRelease(String),
    /// Open the `aria2c` tarball embedded in the program.
    LoadEmbeddedAria,
    /// Download the `aria2c` tarball from this URL.
    DownloadAria(String),
    /// Read the `aria2c` tarball from this file.
    ReadAriaFile(String),
    /// Remove this directory and all it holds; a failure is ignored.
    RemoveDir(String),
    /// Create this directory and its parents.
    CreateDir(String),
    /// Unpack the release tarball into this directory.
    UnpackLauncher(String),
    /// Unpack the `aria2c` tarball into this directory.
    UnpackAria(String),
    /// Check whether the launcher binary exists at this path.
    CheckLauncherBinary(String),
    /// Check whether the `aria2c` binary exists at this path.
    CheckAria2c(String),
    /// Create or truncate the file at `path` and write `contents` to it.
    WriteVersion { path: String, contents: String },
    /// The install is over, with this result.
    Finish(Result<(), InstallError>),
}

/// An `InstallAction` as plain values.
pub enum InstallActionView {
    Progress(Seq<char>),
    DownloadRelease(Seq<char>),
    LoadEmbeddedAria,
    DownloadAria(Seq<char>),
    ReadAriaFile(Seq<char>),
    RemoveDir(Seq<char>),
    CreateDir(Seq<char>),
    UnpackLauncher(Seq<char>),
    UnpackAria(Seq<char>),
    CheckLauncherBinary(Seq<char>),
    CheckAria2c(Seq<char>),
    WriteVersion { path: Seq<char>, contents: Seq<char> },
    Finish(Result<(), InstallErrorView>),
}

impl View for InstallAction {
    type V = InstallActionView;

    open spec fn view(&self) -> InstallActionView {
        match self {
            InstallAction::Progress(s) => InstallActionView::Progress(s@),
            InstallAction::DownloadRelease(s) => InstallActionView::DownloadRelease(s@),
            InstallAction::LoadEmbeddedAria => InstallActionView::LoadEmbeddedAria,
            InstallAction::DownloadAria(s) => InstallActionView::DownloadAria(s@),
            InstallAction::ReadAriaFile(s) => InstallActionView::ReadAriaFile(s@),
            InstallAction::RemoveDir(s) => InstallActionView::RemoveDir(s@),
            InstallAction::CreateDir(s) => InstallActionView::CreateDir(s@),
            InstallAction::UnpackLauncher(s) => InstallActionView::UnpackLauncher(s@),
            InstallAction::UnpackAria(s) => InstallActionView::UnpackAria(s@),
            InstallAction::CheckLauncherBinary(s) => InstallActionView::CheckLauncherBinary(s@),
            InstallAction::CheckAria2c(s) => InstallActionView::CheckAria2c(s@),
            InstallAction::WriteVersion { path, contents } => InstallActionView::WriteVersion {
                path: path@,
                contents: contents@,
            },
            InstallAction::Finish(r) => InstallActionView::Finish(
                match r {
                    Ok(()) => Ok(()),
                    Err(e) => Err(e@),
                },
            ),
        }
    }
}

/// The outcome of a piece of work, handed back to the install.
#[derive(Debug)]
pub enum StepOutcome {
    /// The work was done.
    Done,
    /// The work failed, with this message.
    Failed(String),
    /// The existence check found (`true`) or did not find the file.
    Exists(bool),
}

/// A `StepOutcome` as plain values.
pub enum OutcomeView {
    Done,
    Failed(Seq<char>),
    Exists(bool),
}

impl View for StepOutcome {
    type V = OutcomeView;

    open spec fn view(&self) -> OutcomeView {
        match self {
            StepOutcome::Done => OutcomeView::Done,
            StepOutcome::Failed(m) => OutcomeView::Failed(m@),
            StepOutcome::Exists(b) => OutcomeView::Exists(*b),
        }
    }
}

/// The first progress text: updating or downloading, with the version.
pub open spec fn intro_message(plan: InstallPlanView) -> Seq<char> {
    if plan.is_update {
        "Updating TruckersMP-Launcher ("@ + plan.release.version + ")"@
    } else {
        "Downloading TruckersMP-Launcher ("@ + plan.release.version + ")"@
    }
}

/// The steps that make the `aria2c` tarball ready.
pub open spec fn aria_steps(src: AriaSourceView) -> Seq<InstallActionView> {
    match src {
        AriaSourceView::Embedded => seq![InstallActionView::LoadEmbeddedAria],
        AriaSourceView::Url(u) => seq![
            InstallActionView::Progress("Downloading aria2c"@),
            InstallActionView::DownloadAria(u),
        ],
        AriaSourceView::File(p) => seq![InstallActionView::ReadAriaFile(p)],
    }
}

/// The steps that follow, once both tarballs are at hand.
pub open spec fn unpack_steps(plan: InstallPlanView) -> Seq<InstallActionView> {
    let dir = plan.install_location;
    seq![
        InstallActionView::RemoveDir(dir),
        InstallActionView::CreateDir(dir),
        InstallActionView::Progress("Extracting TruckersMP-Launcher"@),
        InstallActionView::UnpackLauncher(dir),
        InstallActionView::Progress("Validating TruckersMP-Launcher files"@),
        InstallActionView::CheckLauncherBinary(join_path_spec(dir, LAUNCHER_BIN_FILENAME@)),
        InstallActionView::Progress("Unpacking aria2c"@),
        InstallActionView::UnpackAria(dir),
        InstallActionView::Progress("Validating aria2c files"@),
        InstallActionView::CheckAria2c(join_path_spec(dir, ARIA2C_BIN_FILENAME@)),
        InstallActionView::Progress("Writing version data"@),
        InstallActionView::WriteVersion {
            path: join_path_spec(dir, VERSIONDATA_LOCAL_FILENAME@),
            contents: plan.release.version,
        },
        InstallActionView::Progress("Finishing up"@),
    ]
}

/// Every step of an install that succeeds, in order.
pub open spec fn install_script(plan: InstallPlanView) -> Seq<InstallActionView> {
    seq![
        InstallActionView::Progress(intro_message(plan)),
        InstallActionView::DownloadRelease(plan.release.download_url),
    ] + aria_steps(plan.aria_source) + unpack_steps(plan)
}

/// Whether the install goes on after `action` had `outcome`: progress and
/// the removal of the old installation go on whatever happened, an existence
/// check only when the file was found, other work unless it failed.
pub open spec fn accepted(action: InstallActionView, outcome: OutcomeView) -> bool {
    match action {
        InstallActionView::Progress(_) => true,
        InstallActionView::RemoveDir(_) => true,
        InstallActionView::CheckLauncherBinary(_) => outcome == OutcomeView::Exists(true),
        InstallActionView::CheckAria2c(_) => outcome == OutcomeView::Exists(true),
        _ => !(outcome is Failed),
    }
}

/// The error that ends an install where `action` had an `outcome` that is
/// not accepted.
pub open spec fn failure(action: InstallActionView, outcome: OutcomeView) -> InstallErrorView {
    match outcome {
        OutcomeView::Failed(m) => InstallErrorView::Io(m),
        _ => match action {
            InstallActionView::CheckAria2c(_) => InstallErrorView::MissingAria2c,
            _ => InstallErrorView::MissingLauncherBinary,
        },
    }
}

/// The action that follows the outcome of step `pos` of the script.
pub open spec fn next_install_action(plan: InstallPlanView, pos: int, outcome: OutcomeView) -> InstallActionView {
    let script = install_script(plan);
    if !accepted(script[pos], outcome) {
        InstallActionView::Finish(Err(failure(script[pos], outcome)))
    } else if pos + 1 < script.len() {
        script[pos + 1]
    } else {
        InstallActionView::Finish(Ok(()))
    }
}

/// An install in progress.
pub struct InstallFlow {
    plan: InstallPlan,
    /// Index in the script of the step whose outcome is awaited, or of the
    /// last step taken once the install is over.
    pos: usize,
    finished: bool,
    /// The outcomes handed back so far.
    history: Ghost<Seq<OutcomeView>>,
}

impl InstallFlow {
    pub closed spec fn plan(&self) -> InstallPlanView {
        self.plan@
    }

    pub closed spec fn pos(&self) -> int {
        self.pos as int
    }

    pub closed spec fn is_finished(&self) -> bool {
        self.finished
    }

    pub closed spec fn history(&self) -> Seq<OutcomeView> {
        self.history@
    }

    /// The install's own invariant: every outcome before the current step
    /// was accepted, and a finished install either stopped at a step whose
    /// outcome was not accepted or took every step.
    pub open spec fn wf(&self) -> bool {
        let script = install_script(self.plan());
        let h = self.history();
        let p = self.pos();
        &&& 0 <= p < script.len()
        &&& forall|j: int| 0 <= j < p ==> #[trigger] accepted(script[j], h[j])
        &&& !self.is_finished() ==> h.len() == p
        &&& self.is_finished() ==> h.len() == p + 1 && (!accepted(script[p], h[p]) || (p
            == script.len() - 1 && accepted(script[p], h[p])))
    }
}

/// The number of steps that make the `aria2c` tarball ready.
fn aria_step_count(src: &AriaSource) -> (n: usize)
    ensures
        n == aria_steps(src@).len(),
{
    match src {
        AriaSource::Url(_) => 2,
        _ => 1,
    }
}

/// `prefix`, then `version`, then a closing bracket.
fn bracketed(prefix: &str, version: &str) -> (s: String)
    ensures
        s@ == prefix@ + version@ + ")"@,
{
    let mut s = String::from_str(prefix);
    s.append(version);
    s.append(")");
    s
}

/// Step `i` of the script of `plan`.
fn script_step(plan: &InstallPlan, i: usize) -> (a: InstallAction)
    requires
        i < install_script(plan@).len(),
    ensures
        a@ == install_script(plan@)[i as int],
{
    let ghost script = install_script(plan@);
    let ghost head = seq![
        InstallActionView::Progress(intro_message(plan@)),
        InstallActionView::DownloadRelease(plan@.release.download_url),
    ];
    let ghost aria = aria_steps(plan@.aria_source);
    let ghost tail = unpack_steps(plan@);
    assert(script == head + aria + tail);
    let na = aria_step_count(&plan.aria_source);
    if i == 0 {
        assert(script[0] == head[0]);
        if plan.is_update {
            InstallAction::Progress(
                bracketed("Updating TruckersMP-Launcher (", plan.release.version.as_str()),
            )
        } else {
            InstallAction::Progress(
                bracketed("Downloading TruckersMP-Launcher (", plan.release.version.as_str()),
            )
        }
    } else if i == 1 {
        assert(script[1] == head[1]);
        InstallAction::DownloadRelease(String::from_str(plan.release.download_url.as_str()))
    } else if i < 2 + na {
        assert(script[i as int] == aria[i - 2]);
        match &plan.aria_source {
            AriaSource::Embedded => InstallAction::LoadEmbeddedAria,
            AriaSource::File(p) => InstallAction::ReadAriaFile(p.clone()),
            AriaSource::Url(u) => {
                if i == 2 {
                    InstallAction::Progress(String::from_str("Downloading aria2c"))
                } else {
                    InstallAction::DownloadAria(String::from_str(u.as_str()))
                }
            },
        }
    } else {
        let t = i - 2 - na;
        assert(script[i as int] == tail[t as int]);
        let dir = plan.install_location.as_str();
        if t == 0 {
            InstallAction::RemoveDir(String::from_str(dir))
        } else if t == 1 {
            InstallAction::CreateDir(String::from_str(dir))
        } else if t == 2 {
            InstallAction::Progress(String::from_str("Extracting TruckersMP-Launcher"))
        } else if t == 3 {
            InstallAction::UnpackLauncher(String::from_str(dir))
        } else if t == 4 {
            InstallAction::Progress(String::from_str("Validating TruckersMP-Launcher files"))
        } else if t == 5 {
            InstallAction::CheckLauncherBinary(join_path(dir, LAUNCHER_BIN_FILENAME))
        } else if t == 6 {
            InstallAction::Progress(String::from_str("Unpacking aria2c"))
        } else if t == 7 {
            InstallAction::UnpackAria(String::from_str(dir))
        } else if t == 8 {
            InstallAction::Progress(String::from_str("Validating aria2c files"))
        } else if t == 9 {
            InstallAction::CheckAria2c(join_path(dir, ARIA2C_BIN_FILENAME))
        } else if t == 10 {
            InstallAction::Progress(String::from_str("Writing version data"))
        } else if t == 11 {
            InstallAction::WriteVersion {
                path: join_path(dir, VERSIONDATA_LOCAL_FILENAME),
                contents: plan.release.version.clone(),
            }
        } else {
            InstallAction::Progress(String::from_str("Finishing up"))
        }
    }
}

/// The only step of an install's script that writes the version file is the
/// one after both tarballs were unpacked and checked: it writes the
/// release's version to `versiondata` in the installation.
pub proof fn lemma_write_version_step(plan: InstallPlanView, k: int)
    requires
        0 <= k < install_script(plan).len(),
        install_script(plan)[k] is WriteVersion,
    ensures
        ({
            let script = install_script(plan);
            let dir = plan.install_location;
            let na = aria_steps(plan.aria_source).len() as int;
            &&& k == 2 + na + 11
            &&& script[k] == InstallActionView::WriteVersion {
                path: join_path_spec(dir, VERSIONDATA_LOCAL_FILENAME@),
                contents: plan.release.version,
            }
            &&& script[2 + na + 3] == InstallActionView::UnpackLauncher(dir)
            &&& script[2 + na + 5] == InstallActionView::CheckLauncherBinary(
                join_path_spec(dir, LAUNCHER_BIN_FILENAME@),
            )
            &&& script[2 + na + 7] == InstallActionView::UnpackAria(dir)
            &&& script[2 + na + 9] == InstallActionView::CheckAria2c(
                join_path_spec(dir, ARIA2C_BIN_FILENAME@),
            )
        }),
{
    let script = install_script(plan);
    let head = seq![
        InstallActionView::Progress(intro_message(plan)),
        InstallActionView::DownloadRelease(plan.release.download_url),
    ];
    let aria = aria_steps(plan.aria_source);
    let tail = unpack_steps(plan);
    assert(script == head + aria + tail);
    let na = aria.len() as int;
    if k < 2 {
        assert(script[k] == head[k]);
    } else if k < 2 + na {
        assert(script[k] == aria[k - 2]);
    } else {
        assert(script[k] == tail[k - 2 - na]);
    }
    assert(script[2 + na + 3] == tail[3]);
    assert(script[2 + na + 5] == tail[5]);
    assert(script[2 + na + 7] == tail[7]);
    assert(script[2 + na + 9] == tail[9]);
    assert(script[2 + na + 11] == tail[11]);
}

/// An install writes the version file only after the launcher tarball was
/// unpacked, the launcher binary found, the `aria2c` tarball unpacked and the
/// `aria2c` binary found: for an install in progress whose current step
/// writes the version file, each of those steps came before it and had an
/// accepted outcome.
pub proof fn lemma_version_written_after_validation(flow: InstallFlow)
    requires
        flow.wf(),
        install_script(flow.plan())[flow.pos()] is WriteVersion,
    ensures
        ({
            let plan = flow.plan();
            let script = install_script(plan);
            let dir = plan.install_location;
            &&& exists|j: int|
                0 <= j < flow.pos() && script[j] == InstallActionView::UnpackLauncher(dir)
                    && accepted(script[j], #[trigger] flow.history()[j])
            &&& exists|j: int|
                0 <= j < flow.pos() && script[j] == InstallActionView::CheckLauncherBinary(
                    join_path_spec(dir, LAUNCHER_BIN_FILENAME@),
                ) && #[trigger] flow.history()[j] == OutcomeView::Exists(true)
            &&& exists|j: int|
                0 <= j < flow.pos() && script[j] == InstallActionView::UnpackAria(dir) && accepted(
                    script[j],
                    #[trigger] flow.history()[j],
                )
            &&& exists|j: int|
                0 <= j < flow.pos() && script[j] == InstallActionView::CheckAria2c(
                    join_path_spec(dir, ARIA2C_BIN_FILENAME@),
                ) && #[trigger] flow.history()[j] == OutcomeView::Exists(true)
        }),
{
    let plan = flow.plan();
    let script = install_script(plan);
    lemma_write_version_step(plan, flow.pos());
    let na = aria_steps(plan.aria_source).len() as int;
    let j1 = 2 + na + 3;
    let j2 = 2 + na + 5;
    let j3 = 2 + na + 7;
    let j4 = 2 + na + 9;
    assert(accepted(script[j1], flow.history()[j1]));
    assert(accepted(script[j2], flow.history()[j2]));
    assert(accepted(script[j3], flow.history()[j3]));
    assert(accepted(script[j4], flow.history()[j4]));
}

/// An install over whose last outcome was accepted took every step of its
/// script, and every outcome was accepted.
pub proof fn lemma_finished_install_took_every_step(flow: InstallFlow)
    requires
        flow.wf(),
        flow.is_finished(),
        accepted(install_script(flow.plan())[flow.pos()], flow.history()[flow.pos()]),
    ensures
        flow.history().len() == install_script(flow.plan()).len(),
        forall|j: int|
            0 <= j < flow.history().len() ==> #[trigger] accepted(
                install_script(flow.plan())[j],
                flow.history()[j],
            ),
{
}

/// Whether a step is work that can fail and that the install cannot do
/// without: a download, a read, creating the directory, unpacking or writing
/// the version file.
pub open spec fn is_essential_work(a: InstallActionView) -> bool {
    ||| a is DownloadRelease
    ||| a is LoadEmbeddedAria
    ||| a is DownloadAria
    ||| a is ReadAriaFile
    ||| a is CreateDir
    ||| a is UnpackLauncher
    ||| a is UnpackAria
    ||| a is WriteVersion
}

/// A failure of essential work, or of an existence check, stops the install
/// with the failure's message; a check that finds no file stops it with the
/// error that names the missing binary; progress texts and the removal of the
/// old installation never stop it, and work that succeeded lets it go on to
/// the next step of the script, or to success after the last one.
pub proof fn lemma_install_outcomes(plan: InstallPlanView, j: int, m: Seq<char>, o: OutcomeView)
    requires
        0 <= j < install_script(plan).len(),
    ensures
        ({
            let script = install_script(plan);
            let next = if j + 1 < script.len() {
                script[j + 1]
            } else {
                InstallActionView::Finish(Ok(()))
            };
            &&& (is_essential_work(script[j]) || script[j] is CheckLauncherBinary
                || script[j] is CheckAria2c) ==> next_install_action(
                plan,
                j,
                OutcomeView::Failed(m),
            ) == InstallActionView::Finish(Err(InstallErrorView::Io(m)))
            &&& script[j] is CheckLauncherBinary ==> next_install_action(
                plan,
                j,
                OutcomeView::Exists(false),
            ) == InstallActionView::Finish(Err(InstallErrorView::MissingLauncherBinary))
            &&& script[j] is CheckAria2c ==> next_install_action(
                plan,
                j,
                OutcomeView::Exists(false),
            ) == InstallActionView::Finish(Err(InstallErrorView::MissingAria2c))
            &&& (script[j] is CheckLauncherBinary || script[j] is CheckAria2c)
                ==> next_install_action(plan, j, OutcomeView::Exists(true)) == next
            &&& is_essential_work(script[j]) ==> next_install_action(plan, j, OutcomeView::Done)
                == next
            &&& (script[j] is Progress || script[j] is RemoveDir) ==> next_install_action(plan, j, o)
                == next
        }),
{
}

/// The shape of every install's script: it opens with the progress text that
/// names the release's version (`Updating` for an update, `Downloading`
/// otherwise) and the download of the release tarball, then makes the
/// `aria2c` tarball ready from its source, and closes with writing the
/// release's version to `versiondata` in the installation and the text
/// `Finishing up`.
pub proof fn lemma_install_script_shape(plan: InstallPlanView)
    ensures
        ({
            let script = install_script(plan);
            let n = script.len();
            let v = plan.release.version;
            let dir = plan.install_location;
            &&& script[0] == InstallActionView::Progress(
                if plan.is_update {
                    "Updating TruckersMP-Launcher ("@ + v + ")"@
                } else {
                    "Downloading TruckersMP-Launcher ("@ + v + ")"@
                },
            )
            &&& script[1] == InstallActionView::DownloadRelease(plan.release.download_url)
            &&& script[2] == match plan.aria_source {
                AriaSourceView::Embedded => InstallActionView::LoadEmbeddedAria,
                AriaSourceView::Url(_) => InstallActionView::Progress("Downloading aria2c"@),
                AriaSourceView::File(p) => InstallActionView::ReadAriaFile(p),
            }
            &&& (plan.aria_source matches AriaSourceView::Url(u) ==> script[3]
                == InstallActionView::DownloadAria(u))
            &&& n == if plan.aria_source is Url {
                17int
            } else {
                16int
            }
            &&& script[n - 3] == InstallActionView::Progress("Writing version data"@)
            &&& script[n - 2] == InstallActionView::WriteVersion {
                path: join_path_spec(dir, VERSIONDATA_LOCAL_FILENAME@),
                contents: v,
            }
            &&& script[n - 1] == InstallActionView::Progress("Finishing up"@)
        }),
{
    let script = install_script(plan);
    let head = seq![
        InstallActionView::Progress(intro_message(plan)),
        InstallActionView::DownloadRelease(plan.release.download_url),
    ];
    let aria = aria_steps(plan.aria_source);
    let tail = unpack_steps(plan);
    assert(script == head + aria + tail);
    let na = aria.len() as int;
    let n = script.len() as int;
    assert(script[0] == head[0]);
    assert(script[1] == head[1]);
    assert(script[2] == aria[0]);
    if na == 2 {
        assert(script[3] == aria[1]);
    }
    assert(script[n - 3] == tail[10]);
    assert(script[n - 2] == tail[11]);
    assert(script[n - 1] == tail[12]);
}

/// An install in progress got this far only because all its essential work
/// so far succeeded and every existence check so far found its file; so an
/// install whose last step had such an outcome, and that is over, did every
/// step of its script with none of its work failing.
pub proof fn lemma_install_progress_means_success_so_far(flow: InstallFlow)
    requires
        flow.wf(),
    ensures
        ({
            let script = install_script(flow.plan());
            let h = flow.history();
            &&& forall|j: int|
                0 <= j < flow.pos() && is_essential_work(script[j]) ==> !(#[trigger] h[j] is Failed)
            &&& forall|j: int|
                0 <= j < flow.pos() && (script[j] is CheckLauncherBinary || script[j] is CheckAria2c)
                    ==> #[trigger] h[j] == OutcomeView::Exists(true)
            &&& (flow.is_finished() && !(h[flow.pos()] is Failed) && !(h[flow.pos()]
                == OutcomeView::Exists(false)) && !(h[flow.pos()] == OutcomeView::Done && (
            script[flow.pos()] is CheckLauncherBinary || script[flow.pos()] is CheckAria2c)))
                ==> flow.pos() == script.len() - 1 && h.len() == script.len()
        }),
{
    let script = install_script(flow.plan());
    let h = flow.history();
    assert forall|j: int|
        0 <= j < flow.pos() && is_essential_work(script[j]) implies !(#[trigger] h[j] is Failed) by {
        assert(accepted(script[j], h[j]));
    }
    assert forall|j: int|
        0 <= j < flow.pos() && (script[j] is CheckLauncherBinary || script[j] is CheckAria2c)
            implies #[trigger] h[j] == OutcomeView::Exists(true) by {
        assert(accepted(script[j], h[j]));
    }
}

/// Starts creating or overwriting the installation at `install_location`
/// from `release`, taking `aria2c` from `aria_source`; `is_update` picks the
/// wording of the first progress text. Returns the install and its first step.
pub fn install_or_update_xlcore(
    release: ReleaseAssetInfo,
    aria_source: AriaSource,
    install_location: String,
    is_update: bool,
) -> (r: (InstallFlow, InstallAction))
    ensures
        r.0.wf(),
        r.0.plan() == (InstallPlanView {
            release: release@,
            aria_source: aria_source@,
            install_location: install_location@,
            is_update,
        }),
        !r.0.is_finished(),
        r.0.pos() == 0,
        r.0.history() == Seq::<OutcomeView>::empty(),
        r.1@ == install_script(r.0.plan())[0],
{
    let plan = InstallPlan { release, aria_source, install_location, is_update };
    let first = script_step(&plan, 0);
    (InstallFlow { plan, pos: 0, finished: false, history: Ghost(Seq::empty()) }, first)
}

impl InstallFlow {
    /// Whether the install is over.
    pub fn is_over(&self) -> (b: bool)
        ensures
            b == self.is_finished(),
    {
        self.finished
    }

    /// Hands back the outcome of the current step and returns the next one:
    /// the next step of the script where the outcome is accepted, else
    /// `Finish` with the error; `Finish(Ok(()))` after the last step.
    pub fn step(&mut self, outcome: StepOutcome) -> (a: InstallAction)
        requires
            old(self).wf(),
            !old(self).is_finished(),
        ensures
            final(self).wf(),
            final(self).plan() == old(self).plan(),
            final(self).history() == old(self).history().push(outcome@),
            a@ == next_install_action(old(self).plan(), old(self).pos(), outcome@),
            final(self).is_finished() <==> a@ is Finish,
            !final(self).is_finished() ==> final(self).pos() == old(self).pos() + 1,
            final(self).is_finished() ==> final(self).pos() == old(self).pos(),
    {
        let ghost script = install_script(self.plan@);
        let ghost o = outcome@;
        let n = 2 + aria_step_count(&self.plan.aria_source) + 13;
        assert(n == script.len());
        let current = script_step(&self.plan, self.pos);
        let ok = match (&current, &outcome) {
            (InstallAction::Progress(_), _) => true,
            (InstallAction::RemoveDir(_), _) => true,
            (InstallAction::CheckLauncherBinary(_), StepOutcome::Exists(found)) => *found,
            (InstallAction::CheckLauncherBinary(_), _) => false,
            (InstallAction::CheckAria2c(_), StepOutcome::Exists(found)) => *found,
            (InstallAction::CheckAria2c(_), _) => false,
            (_, StepOutcome::Failed(_)) => false,
            _ => true,
        };
        assert(ok == accepted(script[self.pos as int], o));
        proof {
            self.history@ = self.history@.push(o);
        }
        if !ok {
            let err = match outcome {
                StepOutcome::Failed(m) => InstallError::Io(m),
                _ => match current {
                    InstallAction::CheckAria2c(_) => InstallError::MissingAria2c,
                    _ => InstallError::MissingLauncherBinary,
                },
            };
            self.finished = true;
            InstallAction::Finish(Err(err))
        } else if self.pos + 1 < n {
            self.pos = self.pos + 1;
            script_step(&self.plan, self.pos)
        } else {
            self.finished = true;
            InstallAction::Finish(Ok(()))
        }
    }
}

} // verus!
