use bursar::update::{progress, UpdateAction, UpdateCheck, UpdateEvent, UpdateFlow, UpdateProgress};

fn available() -> UpdateCheck {
    UpdateCheck::Available {
        version: "1.2.0".to_string(),
        asset_url: "https://example.invalid/bursar-linux".to_string(),
        checksum_url: "https://example.invalid/SHA256SUMS".to_string(),
        asset_name: "bursar-linux".to_string(),
    }
}

fn started() -> UpdateFlow {
    let (flow, first) = UpdateFlow::start("1.1.0");
    match first {
        UpdateAction::Check { status } => assert_eq!(status, "Checking for updates..."),
        other => panic!("unexpected first action {other:?}"),
    }
    flow
}

fn warning(a: Option<UpdateAction>) -> (bool, String) {
    match a {
        Some(UpdateAction::Finish { remove_download, result: Err(m) }) => (remove_download, m),
        other => panic!("expected a failed finish, got {other:?}"),
    }
}

#[test]
fn up_to_date_ends_quietly() {
    let mut flow = started();
    match flow.advance(UpdateEvent::Checked(UpdateCheck::UpToDate)) {
        Some(UpdateAction::Finish { remove_download, result }) => {
            assert!(!remove_download);
            assert_eq!(result, Ok(()));
        }
        other => panic!("unexpected {other:?}"),
    }
}

#[test]
fn failed_check_ends_quietly() {
    let mut flow = started();
    match flow.advance(UpdateEvent::Checked(UpdateCheck::Failed("offline".to_string()))) {
        Some(UpdateAction::Finish { remove_download, result }) => {
            assert!(!remove_download);
            assert_eq!(result, Ok(()));
        }
        other => panic!("unexpected {other:?}"),
    }
}

#[test]
fn preflight_failure_warns_without_cleanup() {
    let mut flow = started();
    assert!(matches!(flow.advance(UpdateEvent::Checked(available())), Some(UpdateAction::Preflight)));
    let (remove, m) = warning(flow.advance(UpdateEvent::PreflightFailed("read-only install".to_string())));
    assert!(!remove);
    assert_eq!(m, "Update to v1.2.0 failed: read-only install. Running v1.1.0.");
}

#[test]
fn happy_path_downloads_verifies_and_replaces() {
    let mut flow = started();
    flow.advance(UpdateEvent::Checked(available()));
    match flow.advance(UpdateEvent::PreflightPassed) {
        Some(UpdateAction::Download { status, url, file_name }) => {
            assert_eq!(status, "Updating to v1.2.0. . .");
            assert_eq!(url, "https://example.invalid/bursar-linux");
            assert_eq!(file_name, "bursar-linux.new");
        }
        other => panic!("unexpected {other:?}"),
    }
    match flow.advance(UpdateEvent::DownloadProgress { bytes: 50, total: Some(200) }) {
        Some(UpdateAction::ShowProgress(p)) => assert_eq!(p, UpdateProgress::Determinate { percent: 25 }),
        other => panic!("unexpected {other:?}"),
    }
    match flow.advance(UpdateEvent::Downloaded) {
        Some(UpdateAction::FetchChecksum { url, asset_name }) => {
            assert_eq!(url, "https://example.invalid/SHA256SUMS");
            assert_eq!(asset_name, "bursar-linux");
        }
        other => panic!("unexpected {other:?}"),
    }
    match flow.advance(UpdateEvent::ChecksumFetched("abc123".to_string())) {
        Some(UpdateAction::VerifyChecksum { expected }) => assert_eq!(expected, "abc123"),
        other => panic!("unexpected {other:?}"),
    }
    assert!(matches!(flow.advance(UpdateEvent::Verified), Some(UpdateAction::Replace)));
}

#[test]
fn failures_after_download_begins_remove_the_file() {
    let mut flow = started();
    flow.advance(UpdateEvent::Checked(available()));
    flow.advance(UpdateEvent::PreflightPassed);
    let (remove, m) = warning(flow.advance(UpdateEvent::DownloadFailed("connection reset".to_string())));
    assert!(remove);
    assert_eq!(m, "Update to v1.2.0 failed: connection reset. Running v1.1.0.");

    let mut flow = started();
    flow.advance(UpdateEvent::Checked(available()));
    flow.advance(UpdateEvent::PreflightPassed);
    flow.advance(UpdateEvent::Downloaded);
    flow.advance(UpdateEvent::ChecksumFetched("abc".to_string()));
    let (remove, m) = warning(flow.advance(UpdateEvent::VerifyFailed("checksum mismatch".to_string())));
    assert!(remove);
    assert_eq!(m, "Update to v1.2.0 failed: checksum mismatch. Running v1.1.0.");

    let mut flow = started();
    flow.advance(UpdateEvent::Checked(available()));
    flow.advance(UpdateEvent::PreflightPassed);
    flow.advance(UpdateEvent::Downloaded);
    flow.advance(UpdateEvent::ChecksumFetched("abc".to_string()));
    flow.advance(UpdateEvent::Verified);
    let (remove, _) = warning(flow.advance(UpdateEvent::ReplaceFailed("busy".to_string())));
    assert!(remove);
}

#[test]
fn out_of_order_event_is_ignored() {
    let mut flow = started();
    assert!(flow.advance(UpdateEvent::Verified).is_none());
    match flow.advance(UpdateEvent::Checked(UpdateCheck::UpToDate)) {
        Some(UpdateAction::Finish { result, .. }) => assert_eq!(result, Ok(())),
        other => panic!("unexpected {other:?}"),
    }
}

#[test]
fn progress_bar_percentages() {
    assert_eq!(progress(0, Some(1000)), UpdateProgress::Determinate { percent: 0 });
    assert_eq!(progress(333, Some(1000)), UpdateProgress::Determinate { percent: 33 });
    assert_eq!(progress(1000, Some(1000)), UpdateProgress::Determinate { percent: 100 });
    assert_eq!(progress(5000, Some(1000)), UpdateProgress::Determinate { percent: 100 });
    assert_eq!(progress(10, Some(0)), UpdateProgress::Indeterminate);
    assert_eq!(progress(10, None), UpdateProgress::Indeterminate);
}
