//! The release to install: where its tarball is and which version it is.

use vstd::prelude::*;

use crate::error::{LaunchError, LaunchErrorView};
use crate::text::{trim, trim_spec};
use crate::web_url::{url_join, WebUrl};

verus! {

/// A release of the launcher published under a web release URL.
#[derive(Debug)]
pub struct ReleaseAssetInfo {
    /// Where the release tarball is downloaded from.
    pub download_url: WebUrl,
    /// The release's version, as the server's `version` file gives it, trimmed.
    pub version: String,
}

/// A `ReleaseAssetInfo` as plain values.
pub struct ReleaseView {
    pub download_url: Seq<char>,
    pub version: Seq<char>,
}

impl View for ReleaseAssetInfo {
    type V = ReleaseView;

    open spec fn view(&self) -> ReleaseView {
        ReleaseView { download_url: self.download_url@, version: self.version@ }
    }
}

/// The two URLs of a release, before its version is known.
#[derive(Debug)]
pub struct VersionQuery {
    /// Where the release tarball is.
    pub release_url: WebUrl,
    /// Where the plain-text version file is.
    pub version_url: WebUrl,
}

/// Whether an HTTP status code is a success (`200..=299`, as
/// `StatusCode::is_success`).
pub open spec fn is_success_status(code: u16) -> bool {
    200 <= code <= 299
}

impl ReleaseAssetInfo {
    /// Resolves the release tarball and the version file against the web
    /// release URL `base_url`. The version is then fetched from
    /// `version_url` and handed to `VersionQuery::check_status` and
    /// `VersionQuery::finish`.
    pub fn from_url(base_url: &WebUrl, release_asset: &str, version_asset: &str) -> (r: Result<
        VersionQuery,
        LaunchError,
    >)
        ensures
            match r {
                Ok(q) => {
                    &&& url_join(base_url@, release_asset@) == Ok::<Seq<char>, Seq<char>>(
                        q.release_url@,
                    )
                    &&& url_join(base_url@, version_asset@) == Ok::<Seq<char>, Seq<char>>(
                        q.version_url@,
                    )
                },
                Err(e) => match url_join(base_url@, release_asset@) {
                    Err(m) => e@ == LaunchErrorView::InvalidUrl(m),
                    Ok(_) => url_join(base_url@, version_asset@) matches Err(m) && e@
                        == LaunchErrorView::InvalidUrl(m),
                },
            },
    {
        let release_url = match base_url.join(release_asset) {
            Ok(u) => u,
            Err(m) => return Err(LaunchError::InvalidUrl(m)),
        };
        let version_url = match base_url.join(version_asset) {
            Ok(u) => u,
            Err(m) => return Err(LaunchError::InvalidUrl(m)),
        };
        Ok(VersionQuery { release_url, version_url })
    }
}

impl VersionQuery {
    /// Checks the status of the answer to the version request: an error
    /// unless the code is a success, shown as `status_text`.
    pub fn check_status(&self, status_code: u16, status_text: &str) -> (r: Result<(), LaunchError>)
        ensures
            r is Ok <==> is_success_status(status_code),
            r matches Err(e) ==> e@ == LaunchErrorView::NoVersionInfo(status_text@),
    {
        if 200 <= status_code && status_code <= 299 {
            Ok(())
        } else {
            Err(LaunchError::NoVersionInfo(String::from_str(status_text)))
        }
    }

    /// The release, from the body of the version file: its version is the
    /// body without leading and trailing white space.
    pub fn finish(self, body: &str) -> (r: ReleaseAssetInfo)
        ensures
            r@.download_url == self.release_url@,
            r@.version == trim_spec(body@),
    {
        ReleaseAssetInfo { download_url: self.release_url, version: trim(body) }
    }
}

} // verus!
