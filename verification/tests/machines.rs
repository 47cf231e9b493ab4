use tlm::aria_source::AriaSource;
use tlm::bridge::{start_discord_bridge, BridgeAction, BridgeEvent};
use tlm::command::{bridge_command, launcher_command, Command};
use tlm::error::{InstallError, LaunchError};
use tlm::install::{install_or_update_xlcore, InstallAction, StepOutcome};
use tlm::launch::{LaunchAction, LaunchCommand, LaunchEvent};
use tlm::release::ReleaseAssetInfo;
use tlm::web_url::WebUrl;

const BASE: &str = "https://files.launcher.truckersmp.com/truckersmp-launcher/linux/x64/";
const DIR: &str = "/home/u/.local/share/launcher";

fn release(version: &str) -> ReleaseAssetInfo {
    let q = ReleaseAssetInfo::from_url(&WebUrl::parse(BASE).unwrap(), "TruckersMP-Launcher.tar.gz", "version").unwrap();
    q.finish(version)
}

fn env_pairs(c: &Command) -> Vec<(String, String)> {
    c.env.iter().map(|v| (v.name.clone(), v.value.clone())).collect()
}

/// Describes an install action in one line, answering each with `answer`.
fn run_install(
    aria: AriaSource,
    is_update: bool,
    mut answer: impl FnMut(&InstallAction) -> StepOutcome,
) -> (Vec<String>, Result<(), InstallError>) {
    let (mut flow, mut action) = install_or_update_xlcore(release("1.2.3"), aria, DIR.to_string(), is_update);
    let mut log = Vec::new();
    loop {
        let line = match &action {
            InstallAction::Progress(s) => format!("progress {s}"),
            InstallAction::DownloadRelease(u) => format!("download {u}"),
            InstallAction::LoadEmbeddedAria => "embedded aria".to_string(),
            InstallAction::DownloadAria(u) => format!("download aria {u}"),
            InstallAction::ReadAriaFile(p) => format!("read aria {p}"),
            InstallAction::RemoveDir(p) => format!("remove {p}"),
            InstallAction::CreateDir(p) => format!("create {p}"),
            InstallAction::UnpackLauncher(p) => format!("unpack launcher {p}"),
            InstallAction::UnpackAria(p) => format!("unpack aria {p}"),
            InstallAction::CheckLauncherBinary(p) => format!("check launcher {p}"),
            InstallAction::CheckAria2c(p) => format!("check aria2c {p}"),
            InstallAction::WriteVersion { path, contents } => format!("write {path} = {contents}"),
            InstallAction::Finish(_) => break,
        };
        log.push(line);
        let outcome = answer(&action);
        action = flow.step(outcome);
    }
    match action {
        InstallAction::Finish(r) => (log, r),
        _ => unreachable!(),
    }
}

fn all_fine(a: &InstallAction) -> StepOutcome {
    match a {
        InstallAction::CheckLauncherBinary(_) | InstallAction::CheckAria2c(_) => StepOutcome::Exists(true),
        _ => StepOutcome::Done,
    }
}

#[test]
fn install_with_embedded_aria_takes_every_step() {
    let (log, r) = run_install(AriaSource::Embedded, false, all_fine);
    assert!(r.is_ok());
    let expected = vec![
        "progress Downloading TruckersMP-Launcher (1.2.3)".to_string(),
        format!("download {BASE}TruckersMP-Launcher.tar.gz"),
        "embedded aria".to_string(),
        format!("remove {DIR}"),
        format!("create {DIR}"),
        "progress Extracting TruckersMP-Launcher".to_string(),
        format!("unpack launcher {DIR}"),
        "progress Validating TruckersMP-Launcher files".to_string(),
        format!("check launcher {DIR}/TruckersMP-Launcher"),
        "progress Unpacking aria2c".to_string(),
        format!("unpack aria {DIR}"),
        "progress Validating aria2c files".to_string(),
        format!("check aria2c {DIR}/aria2c"),
        "progress Writing version data".to_string(),
        format!("write {DIR}/versiondata = 1.2.3"),
        "progress Finishing up".to_string(),
    ];
    assert_eq!(log, expected);
}

#[test]
fn update_with_downloaded_aria() {
    let aria = AriaSource::from_str("url:https://example.com/aria.tar.gz").unwrap();
    let (log, r) = run_install(aria, true, all_fine);
    assert!(r.is_ok());
    assert_eq!(log[0], "progress Updating TruckersMP-Launcher (1.2.3)");
    assert_eq!(log[2], "progress Downloading aria2c");
    assert_eq!(log[3], "download aria https://example.com/aria.tar.gz");
    assert_eq!(log.len(), 17);
}

#[test]
fn install_with_aria_file() {
    let aria = AriaSource::File("/tmp/aria.tgz".to_string());
    let (log, r) = run_install(aria, false, all_fine);
    assert!(r.is_ok());
    assert_eq!(log[2], "read aria /tmp/aria.tgz");
}

#[test]
fn missing_launcher_binary_stops_the_install() {
    let (log, r) = run_install(AriaSource::Embedded, false, |a| match a {
        InstallAction::CheckLauncherBinary(_) => StepOutcome::Exists(false),
        other => all_fine(other),
    });
    let err = r.unwrap_err();
    assert!(matches!(err, InstallError::MissingLauncherBinary));
    assert_eq!(
        err.message(),
        "TruckersMP-Launcher tarball does not contain a file named 'TruckersMP-Launcher' and is incompatible with XLM."
    );
    assert!(log.last().unwrap().starts_with("check launcher"));
    assert!(!log.iter().any(|l| l.starts_with("write")));
}

#[test]
fn missing_aria2c_stops_the_install() {
    let (log, r) = run_install(AriaSource::Embedded, false, |a| match a {
        InstallAction::CheckAria2c(_) => StepOutcome::Exists(false),
        other => all_fine(other),
    });
    let err = r.unwrap_err();
    assert_eq!(err.message(), "aria2c tarball does not contain a file named 'aria2c' and is incompatible with XLM.");
    assert!(!log.iter().any(|l| l.starts_with("write")));
}

#[test]
fn failed_download_stops_the_install_but_failed_removal_does_not() {
    let (log, r) = run_install(AriaSource::Embedded, false, |a| match a {
        InstallAction::DownloadRelease(_) => StepOutcome::Failed("connection refused".to_string()),
        other => all_fine(other),
    });
    assert!(matches!(r, Err(InstallError::Io(ref m)) if m == "connection refused"));
    assert_eq!(log.len(), 2);
    let (_, r) = run_install(AriaSource::Embedded, false, |a| match a {
        InstallAction::RemoveDir(_) => StepOutcome::Failed("no such directory".to_string()),
        other => all_fine(other),
    });
    assert!(r.is_ok());
}

#[test]
fn launcher_command_moves_ld_preload() {
    let c = launcher_command(DIR, Some("/usr/lib/overlay.so"));
    assert_eq!(c.program, format!("{DIR}/TruckersMP-Launcher"));
    assert_eq!(env_pairs(&c), vec![("XL_PRELOAD".to_string(), "/usr/lib/overlay.so".to_string())]);
    assert_eq!(c.env_remove, vec!["LD_PRELOAD".to_string()]);
    assert!(c.args.is_empty());
    let blank = launcher_command(DIR, Some("  "));
    assert!(blank.env.is_empty());
    assert_eq!(blank.env_remove, vec!["LD_PRELOAD".to_string()]);
    assert!(launcher_command(DIR, None).env.is_empty());
}

#[test]
fn bridge_command_environment() {
    let c = bridge_command(DIR, None, Some("/opt/proton"));
    assert_eq!(c.program, "umu-run");
    assert_eq!(c.args, vec![format!("{DIR}/winediscordipcbridge.exe")]);
    assert!(c.kill_on_drop);
    assert_eq!(
        env_pairs(&c),
        vec![
            ("WINEPREFIX".to_string(), format!("{DIR}/discord-bridge-prefix")),
            ("GAMEID".to_string(), "umu-0".to_string()),
            ("PROTONPATH".to_string(), "/opt/proton".to_string()),
        ]
    );
    let c = bridge_command(DIR, Some("227300"), Some(" "));
    assert_eq!(env_pairs(&c)[1], ("GAMEID".to_string(), "227300".to_string()));
    assert_eq!(c.env.len(), 2);
}

#[test]
fn bridge_starts_when_every_check_passes() {
    let (mut flow, a) = start_discord_bridge(DIR);
    assert!(matches!(a, BridgeAction::CheckFile(ref p) if *p == format!("{DIR}/winediscordipcbridge.exe")));
    let a = flow.step(BridgeEvent::Found(true));
    assert!(matches!(a, BridgeAction::ReadEnv(ref n) if n == "XDG_RUNTIME_DIR"));
    let a = flow.step(BridgeEvent::Env(Some("/run/user/1000".to_string())));
    assert!(matches!(a, BridgeAction::CheckPath(ref p) if p == "/run/user/1000/discord-ipc-0"));
    let a = flow.step(BridgeEvent::Found(true));
    assert!(matches!(a, BridgeAction::FindProcess(ref p) if p == "winediscordipcbridge.exe"));
    let a = flow.step(BridgeEvent::Status(false));
    assert!(matches!(a, BridgeAction::ReadEnv(ref n) if n == "GAMEID"));
    let a = flow.step(BridgeEvent::Env(Some("227300".to_string())));
    assert!(matches!(a, BridgeAction::ReadEnv(ref n) if n == "PROTONPATH"));
    let a = flow.step(BridgeEvent::Env(None));
    match a {
        BridgeAction::Spawn(c) => {
            assert_eq!(c.program, "umu-run");
            assert_eq!(env_pairs(&c)[1].1, "227300");
            assert_eq!(c.env.len(), 2);
        }
        other => panic!("{other:?}"),
    }
    assert!(matches!(flow.step(BridgeEvent::Spawned), BridgeAction::Finish(true)));
}

#[test]
fn bridge_skipped_when_a_check_fails() {
    let (mut flow, _) = start_discord_bridge(DIR);
    assert!(matches!(flow.step(BridgeEvent::Found(false)), BridgeAction::Finish(false)));
    let (mut flow, _) = start_discord_bridge(DIR);
    assert!(matches!(flow.step(BridgeEvent::Failed), BridgeAction::Finish(false)));
    let (mut flow, _) = start_discord_bridge(DIR);
    flow.step(BridgeEvent::Found(true));
    assert!(matches!(flow.step(BridgeEvent::Env(None)), BridgeAction::Finish(false)));
    let (mut flow, _) = start_discord_bridge(DIR);
    flow.step(BridgeEvent::Found(true));
    flow.step(BridgeEvent::Env(Some("/run/user/1".to_string())));
    assert!(matches!(flow.step(BridgeEvent::Found(false)), BridgeAction::Finish(false)));
    let (mut flow, _) = start_discord_bridge(DIR);
    flow.step(BridgeEvent::Found(true));
    flow.step(BridgeEvent::Env(Some("/run/user/1".to_string())));
    flow.step(BridgeEvent::Found(true));
    assert!(matches!(flow.step(BridgeEvent::Status(true)), BridgeAction::Finish(false)));
    let (mut flow, _) = start_discord_bridge(DIR);
    flow.step(BridgeEvent::Found(true));
    flow.step(BridgeEvent::Env(Some("/run/user/1".to_string())));
    flow.step(BridgeEvent::Found(true));
    flow.step(BridgeEvent::Status(false));
    flow.step(BridgeEvent::Env(None));
    flow.step(BridgeEvent::Env(None));
    assert!(matches!(flow.step(BridgeEvent::Failed), BridgeAction::Finish(false)));
}

fn command(skip_update: bool) -> LaunchCommand {
    LaunchCommand {
        xlcore_release_asset: "TruckersMP-Launcher.tar.gz".to_string(),
        xlcore_web_release_url: WebUrl::parse(BASE).unwrap(),
        xlcore_install_directory: DIR.to_string(),
        aria_source: AriaSource::Embedded,
        skip_update,
    }
}

/// Runs a launch whose binary check answers `found` up to the local version
/// read, with a remote version `remote`.
fn launch_until_local_version(skip_update: bool, found: bool, remote: &str) -> tlm::launch::LaunchFlow {
    let (mut flow, a) = command(skip_update).run();
    let a = if skip_update {
        assert!(matches!(a, LaunchAction::CheckInstalled(ref p) if *p == format!("{DIR}/TruckersMP-Launcher")));
        flow.step(LaunchEvent::Found(found))
    } else {
        a
    };
    assert!(matches!(a, LaunchAction::FetchVersion(ref u) if *u == format!("{BASE}version")));
    let a = flow.step(LaunchEvent::Response { status_code: 200, status_text: "200 OK".to_string() });
    assert!(matches!(a, LaunchAction::ReadVersionBody));
    let mut a = flow.step(LaunchEvent::Body(remote.to_string()));
    if !skip_update {
        assert!(matches!(a, LaunchAction::CheckInstalled(ref p) if *p == format!("{DIR}/TruckersMP-Launcher")));
        a = flow.step(LaunchEvent::Found(found));
    }
    assert!(matches!(a, LaunchAction::ReadLocalVersion(ref p) if *p == format!("{DIR}/versiondata")));
    flow
}

/// Finishes a launch from the bridge start on.
fn finish_launch(mut flow: tlm::launch::LaunchFlow, a: LaunchAction, exit_ok: bool) -> Result<(), LaunchError> {
    assert!(matches!(a, LaunchAction::StartBridge(..)));
    let a = flow.step(LaunchEvent::BridgeFinished(true));
    assert!(matches!(a, LaunchAction::ReadEnv(ref n) if n == "LD_PRELOAD"));
    let a = flow.step(LaunchEvent::Env(Some("/lib/overlay.so".to_string())));
    match &a {
        LaunchAction::Spawn(c) => {
            assert_eq!(c.program, format!("{DIR}/TruckersMP-Launcher"));
            assert_eq!(env_pairs(c), vec![("XL_PRELOAD".to_string(), "/lib/overlay.so".to_string())]);
        }
        _ => panic!("expected the launcher to start"),
    }
    assert!(matches!(flow.step(LaunchEvent::Spawned), LaunchAction::WaitLauncher));
    let a = flow.step(LaunchEvent::Exited { success: exit_ok, status_text: "exit status: 1".to_string() });
    assert!(matches!(a, LaunchAction::StopBridge));
    match flow.step(LaunchEvent::Stopped) {
        LaunchAction::Finish(r) => r,
        _ => panic!("expected the end"),
    }
}

#[test]
fn up_to_date_launch_installs_nothing() {
    let mut flow = launch_until_local_version(false, true, "1.2.3\n");
    let a = flow.step(LaunchEvent::LocalVersion("1.2.3".to_string()));
    assert!(finish_launch(flow, a, true).is_ok());
}

#[test]
fn outdated_launch_updates_with_the_remote_version() {
    let mut flow = launch_until_local_version(false, true, " 1.2.4 ");
    match flow.step(LaunchEvent::LocalVersion("1.2.3".to_string())) {
        LaunchAction::Install(mut install, first) => {
            assert!(matches!(first, InstallAction::Progress(ref s) if s == "Updating TruckersMP-Launcher (1.2.4)"));
            let mut a = install.step(StepOutcome::Done);
            let mut written = None;
            while !matches!(a, InstallAction::Finish(_)) {
                if let InstallAction::WriteVersion { contents, .. } = &a {
                    written = Some(contents.clone());
                }
                let o = all_fine(&a);
                a = install.step(o);
            }
            assert_eq!(written.as_deref(), Some("1.2.4"));
            // A second launch reading back what was written installs nothing.
            let mut again = launch_until_local_version(false, true, " 1.2.4 ");
            let a = again.step(LaunchEvent::LocalVersion(written.unwrap()));
            assert!(matches!(a, LaunchAction::StartBridge(..)));
        }
        _ => panic!("expected an update"),
    }
}

#[test]
fn missing_version_file_installs() {
    let mut flow = launch_until_local_version(false, false, "2.0");
    match flow.step(LaunchEvent::NotFound) {
        LaunchAction::Install(_, first) => {
            assert!(matches!(first, InstallAction::Progress(ref s) if s == "Downloading TruckersMP-Launcher (2.0)"))
        }
        _ => panic!("expected an install"),
    }
    let a = flow.step(LaunchEvent::InstallFinished(Ok(())));
    assert!(finish_launch(flow, a, true).is_ok());
}

#[test]
fn missing_binary_updates_even_with_equal_versions() {
    let mut flow = launch_until_local_version(false, false, "2.0");
    assert!(matches!(flow.step(LaunchEvent::LocalVersion("2.0".to_string())), LaunchAction::Install(..)));
}

#[test]
fn skip_update_with_binary_present_stays_offline() {
    let (mut flow, _) = command(true).run();
    assert!(matches!(flow.step(LaunchEvent::Found(true)), LaunchAction::StartBridge(..)));
}

#[test]
fn skip_update_still_installs_a_missing_launcher() {
    let mut flow = launch_until_local_version(true, false, "9.9");
    assert!(matches!(flow.step(LaunchEvent::NotFound), LaunchAction::Install(..)));
}

#[test]
fn unreadable_version_file_still_launches() {
    let mut flow = launch_until_local_version(false, true, "1.0");
    let a = flow.step(LaunchEvent::Failed("permission denied".to_string()));
    assert!(matches!(a, LaunchAction::StartBridge(..)));
}

#[test]
fn failed_install_ends_the_launch() {
    let mut flow = launch_until_local_version(false, false, "1.0");
    flow.step(LaunchEvent::NotFound);
    match flow.step(LaunchEvent::InstallFinished(Err(InstallError::MissingAria2c))) {
        LaunchAction::Finish(Err(e)) => assert_eq!(
            e.message(),
            "aria2c tarball does not contain a file named 'aria2c' and is incompatible with XLM."
        ),
        _ => panic!("expected the launch to end"),
    }
}

#[test]
fn failed_binary_check_ends_the_launch() {
    let (mut flow, _) = command(true).run();
    match flow.step(LaunchEvent::Failed("permission denied".to_string())) {
        LaunchAction::Finish(Err(e)) => assert_eq!(e.message(), "permission denied"),
        _ => panic!("expected the launch to end"),
    }
    let (mut flow, _) = command(false).run();
    flow.step(LaunchEvent::Response { status_code: 200, status_text: "200 OK".to_string() });
    assert!(matches!(flow.step(LaunchEvent::Body("1.0".to_string())), LaunchAction::CheckInstalled(_)));
    match flow.step(LaunchEvent::Failed("permission denied".to_string())) {
        LaunchAction::Finish(Err(e)) => assert_eq!(e.message(), "permission denied"),
        _ => panic!("expected the launch to end"),
    }
}

#[test]
fn without_skipping_the_version_is_asked_for_first() {
    let (_, a) = command(false).run();
    assert!(matches!(a, LaunchAction::FetchVersion(ref u) if *u == format!("{BASE}version")));
    let (mut flow, _) = command(false).run();
    match flow.step(LaunchEvent::Failed("dns error".to_string())) {
        LaunchAction::Finish(Err(e)) => assert_eq!(e.message(), "dns error"),
        _ => panic!("expected the launch to end"),
    }
}

#[test]
fn failing_launcher_is_reported_after_the_bridge_stops() {
    let (mut flow, _) = command(true).run();
    let a = flow.step(LaunchEvent::Found(true));
    let err = finish_launch(flow, a, false).unwrap_err();
    assert_eq!(err.message(), "TruckersMP-Launcher did not exit with a successful status code: exit status: 1");
}

#[test]
fn launch_without_bridge_ends_when_the_launcher_exits() {
    let (mut flow, _) = command(true).run();
    flow.step(LaunchEvent::Found(true));
    flow.step(LaunchEvent::BridgeFinished(false));
    flow.step(LaunchEvent::Env(None));
    flow.step(LaunchEvent::Spawned);
    let a = flow.step(LaunchEvent::Exited { success: true, status_text: "exit status: 0".to_string() });
    assert!(matches!(a, LaunchAction::Finish(Ok(()))));
}

#[test]
fn refused_version_request_ends_the_launch() {
    let (mut flow, _) = command(false).run();
    match flow.step(LaunchEvent::Response { status_code: 404, status_text: "404 Not Found".to_string() }) {
        LaunchAction::Finish(Err(e)) => {
            assert!(matches!(e, LaunchError::NoVersionInfo(_)));
            assert_eq!(e.message(), "Did not receieve version information: 404 Not Found");
        }
        _ => panic!("expected the launch to end"),
    }
}

#[test]
fn failed_launcher_start_ends_the_launch() {
    let (mut flow, _) = command(true).run();
    flow.step(LaunchEvent::Found(true));
    flow.step(LaunchEvent::BridgeFinished(true));
    flow.step(LaunchEvent::Env(None));
    match flow.step(LaunchEvent::Failed("No such file or directory (os error 2)".to_string())) {
        LaunchAction::Finish(Err(e)) => assert_eq!(e.message(), "No such file or directory (os error 2)"),
        _ => panic!("expected the launch to end"),
    }
}

#[test]
fn release_urls_and_version() {
    let base = WebUrl::parse(BASE).unwrap();
    let q = ReleaseAssetInfo::from_url(&base, "TruckersMP-Launcher.tar.gz", "version").unwrap();
    assert_eq!(q.version_url.as_str(), format!("{BASE}version"));
    assert!(q.check_status(200, "200 OK").is_ok());
    assert!(q.check_status(299, "299").is_ok());
    assert!(q.check_status(300, "300 Multiple Choices").is_err());
    assert!(q.check_status(199, "199").is_err());
    let r = q.finish("\t3.1.0 \r\n");
    assert_eq!(r.version, "3.1.0");
    assert_eq!(r.download_url.as_str(), format!("{BASE}TruckersMP-Launcher.tar.gz"));
}

#[test]
fn unresolvable_release_url_ends_the_launch_at_once() {
    let mut cmd = command(false);
    cmd.xlcore_web_release_url = WebUrl::parse("mailto:someone@example.com").unwrap();
    let (_, a) = cmd.run();
    match a {
        LaunchAction::Finish(Err(LaunchError::InvalidUrl(m))) => {
            assert_eq!(m, "relative URL with a cannot-be-a-base base")
        }
        _ => panic!("expected the launch to end"),
    }
    // With the launcher present and updates skipped, the URL is never used.
    let mut cmd = command(true);
    cmd.xlcore_web_release_url = WebUrl::parse("mailto:someone@example.com").unwrap();
    let (mut flow, _) = cmd.run();
    assert!(matches!(flow.step(LaunchEvent::Found(true)), LaunchAction::StartBridge(..)));
}
