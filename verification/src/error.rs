//! Errors that end an install or a launch, with the messages they report.

use vstd::prelude::*;

verus! {

/// Why an install or update of the launcher failed.
#[derive(Debug)]
pub enum InstallError {
    /// A download, read, write or unpack failed, with the message of the failure.
    Io(String),
    /// The launcher tarball holds no launcher binary.
    MissingLauncherBinary,
    /// The `aria2c` tarball holds no `aria2c` binary.
    MissingAria2c,
}

/// An `InstallError` as plain values.
pub enum InstallErrorView {
    Io(Seq<char>),
    MissingLauncherBinary,
    MissingAria2c,
}

impl View for InstallError {
    type V = InstallErrorView;

    open spec fn view(&self) -> InstallErrorView {
        match self {
            InstallError::Io(m) => InstallErrorView::Io(m@),
            InstallError::MissingLauncherBinary => InstallErrorView::MissingLauncherBinary,
            InstallError::MissingAria2c => InstallErrorView::MissingAria2c,
        }
    }
}

/// The message reported for an install error.
pub open spec fn install_error_message(e: InstallErrorView) -> Seq<char> {
    match e {
        InstallErrorView::Io(m) => m,
        InstallErrorView::MissingLauncherBinary =>
            "TruckersMP-Launcher tarball does not contain a file named 'TruckersMP-Launcher' and is incompatible with XLM."@,
        InstallErrorView::MissingAria2c =>
            "aria2c tarball does not contain a file named 'aria2c' and is incompatible with XLM."@,
    }
}

impl InstallError {
    /// The message reported for this error.
    pub fn message(&self) -> (s: String)
        ensures
            s@ == install_error_message(self@),
    {
        match self {
            InstallError::Io(m) => m.clone(),
            InstallError::MissingLauncherBinary => String::from_str(
                "TruckersMP-Launcher tarball does not contain a file named 'TruckersMP-Launcher' and is incompatible with XLM.",
            ),
            InstallError::MissingAria2c => String::from_str(
                "aria2c tarball does not contain a file named 'aria2c' and is incompatible with XLM.",
            ),
        }
    }
}

/// Why a launch failed.
#[derive(Debug)]
pub enum LaunchError {
    /// A release URL could not be resolved, with the parser's message.
    InvalidUrl(String),
    /// A request, file check or process operation failed, with its message.
    Io(String),
    /// The server answered the version request with a status that is not a
    /// success, shown as this text.
    NoVersionInfo(String),
    /// Installing or updating the launcher failed.
    Install(InstallError),
    /// The launcher exited with a status that is not a success, shown as this text.
    LauncherFailed(String),
}

/// A `LaunchError` as plain values.
pub enum LaunchErrorView {
    InvalidUrl(Seq<char>),
    Io(Seq<char>),
    NoVersionInfo(Seq<char>),
    Install(InstallErrorView),
    LauncherFailed(Seq<char>),
}

impl View for LaunchError {
    type V = LaunchErrorView;

    open spec fn view(&self) -> LaunchErrorView {
        match self {
            LaunchError::InvalidUrl(m) => LaunchErrorView::InvalidUrl(m@),
            LaunchError::Io(m) => LaunchErrorView::Io(m@),
            LaunchError::NoVersionInfo(s) => LaunchErrorView::NoVersionInfo(s@),
            LaunchError::Install(e) => LaunchErrorView::Install(e@),
            LaunchError::LauncherFailed(s) => LaunchErrorView::LauncherFailed(s@),
        }
    }
}

/// The message reported for a launch error.
pub open spec fn launch_error_message(e: LaunchErrorView) -> Seq<char> {
    match e {
        LaunchErrorView::InvalidUrl(m) => m,
        LaunchErrorView::Io(m) => m,
        LaunchErrorView::NoVersionInfo(s) => "Did not receieve version information: "@ + s,
        LaunchErrorView::Install(e) => install_error_message(e),
        LaunchErrorView::LauncherFailed(s) =>
            "TruckersMP-Launcher did not exit with a successful status code: "@ + s,
    }
}

impl LaunchError {
    /// The message reported for this error.
    pub fn message(&self) -> (s: String)
        ensures
            s@ == launch_error_message(self@),
    {
        match self {
            LaunchError::InvalidUrl(m) => m.clone(),
            LaunchError::Io(m) => m.clone(),
            LaunchError::NoVersionInfo(status) => {
                let mut s = String::from_str("Did not receieve version information: ");
                s.append(status.as_str());
                s
            },
            LaunchError::Install(e) => e.message(),
            LaunchError::LauncherFailed(status) => {
                let mut s = String::from_str(
                    "TruckersMP-Launcher did not exit with a successful status code: ",
                );
                s.append(status.as_str());
                s
            },
        }
    }
}

} // verus!
