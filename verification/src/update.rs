//! The decisions of the self-update run at start-up: check for a release,
//! make sure the binary can be replaced, download the release beside it,
//! verify its checksum, then replace the binary and restart.
//!
//! The network, file and terminal work is done by the caller; `UpdateFlow`
//! says what to do next after each outcome. An update that is not needed, or
//! whose check fails, ends silently; any later failure ends with a warning,
//! and removes the downloaded file once the download has begun.

use vstd::prelude::*;
use crate::text::{push_str, push_chars, str_chars, string_from_chars};

verus! {

/// What the release check found.
#[derive(Debug, Clone)]
pub enum UpdateCheck {
    /// The running version is the newest.
    UpToDate,
    /// The check could not be made (network or service error).
    Failed(String),
    /// A newer release exists.
    Available { version: String, asset_url: String, checksum_url: String, asset_name: String },
}

/// The progress bar shown on the splash screen.
#[derive(Debug, Clone, Copy, PartialEq, Eq, Structural)]
pub enum UpdateProgress {
    /// The size of the download is not known.
    Indeterminate,
    /// Percent of the download received.
    Determinate { percent: u8 },
    /// The download is verified; the binary is about to be replaced.
    Complete,
}

/// Where the update run stands.
#[derive(Debug, Clone, Copy, PartialEq, Eq, Structural)]
pub enum UpdateStage {
    Checking,
    Preflight,
    Downloading,
    FetchingChecksum,
    Verifying,
    Replacing,
    Done,
}

/// The outcome of the work last asked for.
#[derive(Debug, Clone)]
pub enum UpdateEvent {
    Checked(UpdateCheck),
    PreflightPassed,
    PreflightFailed(String),
    DownloadProgress { bytes: u64, total: Option<u64> },
    Downloaded,
    DownloadFailed(String),
    ChecksumFetched(String),
    ChecksumFetchFailed(String),
    Verified,
    VerifyFailed(String),
    ReplaceFailed(String),
}

/// The work to do next.
#[derive(Debug)]
pub enum UpdateAction {
    /// Show `status` and look for a newer release.
    Check { status: String },
    /// Make sure the running binary can be replaced.
    Preflight,
    /// Show `status` with an indeterminate bar, and download `url` into the
    /// file `file_name` beside the running binary.
    Download { status: String, url: String, file_name: String },
    /// Show the bar; the download goes on.
    ShowProgress(UpdateProgress),
    /// Fetch the published checksum of `asset_name` from `url`.
    FetchChecksum { url: String, asset_name: String },
    /// Check the downloaded file against `expected`.
    VerifyChecksum { expected: String },
    /// Show the completed bar, then replace the binary and restart.
    Replace,
    /// Remove the downloaded file when `remove_download`, then end the run
    /// with `result` (a warning to show on failure).
    Finish { remove_download: bool, result: Result<(), String> },
}

/// The state of an update run.
#[derive(Debug, Clone)]
pub struct UpdateFlow {
    stage: UpdateStage,
    current_version: String,
    version: String,
    asset_url: String,
    checksum_url: String,
    asset_name: String,
}

/// The status shown while looking for a release.
pub open spec fn checking_text() -> Seq<char> {
    "Checking for updates..."@
}

/// The status shown while downloading `version`.
pub open spec fn updating_text(version: Seq<char>) -> Seq<char> {
    "Updating to v"@ + version + ". . ."@
}

/// The warning of a failed update to `version`, while `current` keeps running.
pub open spec fn failure_text(version: Seq<char>, reason: Seq<char>, current: Seq<char>) -> Seq<char> {
    "Update to v"@ + version + " failed: "@ + reason + ". Running v"@ + current + "."@
}

/// The name of the file the release is downloaded into.
pub open spec fn download_name(asset_name: Seq<char>) -> Seq<char> {
    asset_name + ".new"@
}

/// The bar for `bytes` received of `total`: a percentage, at most 100, when the
/// total is known and positive.
pub open spec fn progress_for(bytes: u64, total: Option<u64>) -> UpdateProgress {
    match total {
        Some(t) => if t > 0 {
            let p = (bytes * 100) / (t as int);
            UpdateProgress::Determinate { percent: (if p > 100 { 100 } else { p }) as u8 }
        } else {
            UpdateProgress::Indeterminate
        },
        None => UpdateProgress::Indeterminate,
    }
}

/// Whether the download has begun at `s`, so a failure there leaves a file to remove.
pub open spec fn download_begun(s: UpdateStage) -> bool {
    s == UpdateStage::Downloading || s == UpdateStage::FetchingChecksum
        || s == UpdateStage::Verifying || s == UpdateStage::Replacing
}

/// Whether `a` ends the run with the warning `text`, removing the download when `remove`.
pub open spec fn finishes_with(a: Option<UpdateAction>, remove: bool, text: Seq<char>) -> bool {
    a matches Some(UpdateAction::Finish { remove_download, result: Err(m) }) && remove_download == remove && m@ == text
}

/// The bar for `bytes` received of `total`.
pub fn progress(bytes: u64, total: Option<u64>) -> (p: UpdateProgress)
    requires
        bytes * 100 <= u64::MAX,
    ensures
        p == progress_for(bytes, total),
{
    match total {
        Some(t) => {
            if t > 0 {
                let p = (bytes * 100) / t;
                let percent: u8 = if p > 100 { 100 } else { p as u8 };
                UpdateProgress::Determinate { percent }
            } else {
                UpdateProgress::Indeterminate
            }
        },
        None => UpdateProgress::Indeterminate,
    }
}

impl UpdateFlow {
    pub closed spec fn stage_view(&self) -> UpdateStage {
        self.stage
    }

    pub closed spec fn current_view(&self) -> Seq<char> {
        self.current_version@
    }

    pub closed spec fn version_view(&self) -> Seq<char> {
        self.version@
    }

    pub closed spec fn asset_url_view(&self) -> Seq<char> {
        self.asset_url@
    }

    pub closed spec fn checksum_url_view(&self) -> Seq<char> {
        self.checksum_url@
    }

    pub closed spec fn asset_name_view(&self) -> Seq<char> {
        self.asset_name@
    }

    /// Starts a run for the running version `current_version`: look for a release.
    pub fn start(current_version: &str) -> (r: (UpdateFlow, UpdateAction))
        ensures
            r.0.stage_view() == UpdateStage::Checking,
            r.0.current_view() == current_version@,
            r.1 matches UpdateAction::Check { status } && status@ == checking_text(),
    {
        let mut v: Vec<char> = Vec::new();
        push_str(&mut v, "Checking for updates...");
        proof {
            reveal_strlit("Checking for updates...");
        }
        let flow = UpdateFlow {
            stage: UpdateStage::Checking,
            current_version: string_from_chars(&str_chars(current_version)),
            version: String::new(),
            asset_url: String::new(),
            checksum_url: String::new(),
            asset_name: String::new(),
        };
        (flow, UpdateAction::Check { status: string_from_chars(&v) })
    }

    /// The warning for a failure with `reason`.
    fn failure(&self, reason: &str) -> (s: String)
        ensures
            s@ == failure_text(self.version@, reason@, self.current_version@),
    {
        let mut v: Vec<char> = Vec::new();
        push_str(&mut v, "Update to v");
        push_chars(&mut v, &str_chars(self.version.as_str()));
        push_str(&mut v, " failed: ");
        push_str(&mut v, reason);
        push_str(&mut v, ". Running v");
        push_chars(&mut v, &str_chars(self.current_version.as_str()));
        push_str(&mut v, ".");
        proof {
            reveal_strlit("Update to v");
            reveal_strlit(" failed: ");
            reveal_strlit(". Running v");
            reveal_strlit(".");
        }
        assert(v@ =~= failure_text(self.version@, reason@, self.current_version@));
        string_from_chars(&v)
    }

    /// Takes the outcome of the work last asked for and says what to do next;
    /// `None` for an outcome that does not belong to the current stage, which
    /// leaves the run as it was.
    pub fn advance(&mut self, event: UpdateEvent) -> (a: Option<UpdateAction>)
        requires
            event matches UpdateEvent::DownloadProgress { bytes, .. } ==> bytes * 100 <= u64::MAX,
        ensures
            final(self).current_view() == old(self).current_view(),
            // A failure warns, and removes the download exactly when the download had begun.
            a matches Some(UpdateAction::Finish { remove_download, result: Err(_) }) ==>
                remove_download == download_begun(old(self).stage_view()),
            match (old(self).stage_view(), event) {
                (UpdateStage::Checking, UpdateEvent::Checked(UpdateCheck::UpToDate))
                | (UpdateStage::Checking, UpdateEvent::Checked(UpdateCheck::Failed(_))) =>
                    final(self).stage_view() == UpdateStage::Done
                    && a == Some(UpdateAction::Finish { remove_download: false, result: Ok(()) }),
                (UpdateStage::Checking, UpdateEvent::Checked(UpdateCheck::Available { version, asset_url, checksum_url, asset_name })) =>
                    final(self).stage_view() == UpdateStage::Preflight
                    && final(self).version_view() == version@
                    && final(self).asset_url_view() == asset_url@
                    && final(self).checksum_url_view() == checksum_url@
                    && final(self).asset_name_view() == asset_name@
                    && a == Some(UpdateAction::Preflight),
                (UpdateStage::Preflight, UpdateEvent::PreflightFailed(r)) =>
                    final(self).stage_view() == UpdateStage::Done
                    && finishes_with(a, false, failure_text(old(self).version_view(), r@, old(self).current_view())),
                (UpdateStage::Preflight, UpdateEvent::PreflightPassed) =>
                    final(self).stage_view() == UpdateStage::Downloading
                    && (a matches Some(UpdateAction::Download { status, url, file_name })
                    && status@ == updating_text(old(self).version_view())
                    && url@ == old(self).asset_url_view()
                    && file_name@ == download_name(old(self).asset_name_view())),
                (UpdateStage::Downloading, UpdateEvent::DownloadProgress { bytes, total }) =>
                    final(self).stage_view() == UpdateStage::Downloading
                    && a == Some(UpdateAction::ShowProgress(progress_for(bytes, total))),
                (UpdateStage::Downloading, UpdateEvent::DownloadFailed(e)) =>
                    final(self).stage_view() == UpdateStage::Done
                    && finishes_with(a, true, failure_text(old(self).version_view(), e@, old(self).current_view())),
                (UpdateStage::Downloading, UpdateEvent::Downloaded) =>
                    final(self).stage_view() == UpdateStage::FetchingChecksum
                    && (a matches Some(UpdateAction::FetchChecksum { url, asset_name })
                    && url@ == old(self).checksum_url_view()
                    && asset_name@ == old(self).asset_name_view()),
                (UpdateStage::FetchingChecksum, UpdateEvent::ChecksumFetchFailed(e)) =>
                    final(self).stage_view() == UpdateStage::Done
                    && finishes_with(a, true, failure_text(old(self).version_view(), e@, old(self).current_view())),
                (UpdateStage::FetchingChecksum, UpdateEvent::ChecksumFetched(h)) =>
                    final(self).stage_view() == UpdateStage::Verifying
                    && (a matches Some(UpdateAction::VerifyChecksum { expected }) && expected@ == h@),
                (UpdateStage::Verifying, UpdateEvent::VerifyFailed(e)) =>
                    final(self).stage_view() == UpdateStage::Done
                    && finishes_with(a, true, failure_text(old(self).version_view(), e@, old(self).current_view())),
                (UpdateStage::Verifying, UpdateEvent::Verified) =>
                    final(self).stage_view() == UpdateStage::Replacing
                    && a == Some(UpdateAction::Replace),
                (UpdateStage::Replacing, UpdateEvent::ReplaceFailed(e)) =>
                    final(self).stage_view() == UpdateStage::Done
                    && finishes_with(a, true, failure_text(old(self).version_view(), e@, old(self).current_view())),
                _ => a is None && final(self).stage_view() == old(self).stage_view(),
            },
            final(self).stage_view() != UpdateStage::Preflight || old(self).stage_view() == UpdateStage::Preflight ==> (
                final(self).version_view() == old(self).version_view()
                && final(self).asset_url_view() == old(self).asset_url_view()
                && final(self).checksum_url_view() == old(self).checksum_url_view()
                && final(self).asset_name_view() == old(self).asset_name_view()
            ),
    {
        match (self.stage, event) {
            (UpdateStage::Checking, UpdateEvent::Checked(check)) => {
                match check {
                    UpdateCheck::Available { version, asset_url, checksum_url, asset_name } => {
                        self.version = version;
                        self.asset_url = asset_url;
                        self.checksum_url = checksum_url;
                        self.asset_name = asset_name;
                        self.stage = UpdateStage::Preflight;
                        Some(UpdateAction::Preflight)
                    },
                    _ => {
                        self.stage = UpdateStage::Done;
                        Some(UpdateAction::Finish { remove_download: false, result: Ok(()) })
                    },
                }
            },
            (UpdateStage::Preflight, UpdateEvent::PreflightFailed(r)) => {
                let m = self.failure(r.as_str());
                self.stage = UpdateStage::Done;
                Some(UpdateAction::Finish { remove_download: false, result: Err(m) })
            },
            (UpdateStage::Preflight, UpdateEvent::PreflightPassed) => {
                let mut status: Vec<char> = Vec::new();
                push_str(&mut status, "Updating to v");
                push_chars(&mut status, &str_chars(self.version.as_str()));
                push_str(&mut status, ". . .");
                let mut file: Vec<char> = str_chars(self.asset_name.as_str());
                push_str(&mut file, ".new");
                proof {
                    reveal_strlit("Updating to v");
                    reveal_strlit(". . .");
                    reveal_strlit(".new");
                }
                assert(status@ =~= updating_text(self.version@));
                self.stage = UpdateStage::Downloading;
                let url = string_from_chars(&str_chars(self.asset_url.as_str()));
                Some(UpdateAction::Download {
                    status: string_from_chars(&status),
                    url,
                    file_name: string_from_chars(&file),
                })
            },
            (UpdateStage::Downloading, UpdateEvent::DownloadProgress { bytes, total }) => {
                Some(UpdateAction::ShowProgress(progress(bytes, total)))
            },
            (UpdateStage::Downloading, UpdateEvent::DownloadFailed(e)) => {
                let m = self.failure(e.as_str());
                self.stage = UpdateStage::Done;
                Some(UpdateAction::Finish { remove_download: true, result: Err(m) })
            },
            (UpdateStage::Downloading, UpdateEvent::Downloaded) => {
                self.stage = UpdateStage::FetchingChecksum;
                Some(UpdateAction::FetchChecksum {
                    url: string_from_chars(&str_chars(self.checksum_url.as_str())),
                    asset_name: string_from_chars(&str_chars(self.asset_name.as_str())),
                })
            },
            (UpdateStage::FetchingChecksum, UpdateEvent::ChecksumFetchFailed(e)) => {
                let m = self.failure(e.as_str());
                self.stage = UpdateStage::Done;
                Some(UpdateAction::Finish { remove_download: true, result: Err(m) })
            },
            (UpdateStage::FetchingChecksum, UpdateEvent::ChecksumFetched(h)) => {
                self.stage = UpdateStage::Verifying;
                Some(UpdateAction::VerifyChecksum { expected: h })
            },
            (UpdateStage::Verifying, UpdateEvent::VerifyFailed(e)) => {
                let m = self.failure(e.as_str());
                self.stage = UpdateStage::Done;
                Some(UpdateAction::Finish { remove_download: true, result: Err(m) })
            },
            (UpdateStage::Verifying, UpdateEvent::Verified) => {
                self.stage = UpdateStage::Replacing;
                Some(UpdateAction::Replace)
            },
            (UpdateStage::Replacing, UpdateEvent::ReplaceFailed(e)) => {
                let m = self.failure(e.as_str());
                self.stage = UpdateStage::Done;
                Some(UpdateAction::Finish { remove_download: true, result: Err(m) })
            },
            _ => None,
        }
    }
}

} // verus!
