use sidecar_supervisor::text::decimal_text;
use sidecar_supervisor::updates::{
    UpdateAction, UpdateEvent, UpdatePhase, UpdateReport, Updater,
};

fn chunk(chunk_length: usize, content_length: Option<u64>) -> UpdateEvent {
    UpdateEvent::Chunk { chunk_length, content_length }
}

fn progress(downloaded: usize, content_length: Option<u64>) -> UpdateAction {
    UpdateAction::Report(UpdateReport::Progress { downloaded, content_length })
}

#[test]
fn update_starts_with_the_check() {
    let updater = Updater::new();
    assert_eq!(updater.phase(), UpdatePhase::Checking);
    assert_eq!(updater.downloaded(), 0);
}

#[test]
fn nothing_newer_ends_the_update_quietly() {
    let mut updater = Updater::new();
    assert_eq!(updater.step(UpdateEvent::NoneAvailable), vec![]);
    assert_eq!(updater.phase(), UpdatePhase::UpToDate);
    assert_eq!(updater.step(UpdateEvent::Available), vec![]);
    assert_eq!(updater.phase(), UpdatePhase::UpToDate);
}

#[test]
fn update_is_downloaded_installed_and_followed_by_a_restart() {
    let mut updater = Updater::new();
    assert_eq!(updater.step(UpdateEvent::Available), vec![UpdateAction::DownloadAndInstall]);
    assert_eq!(updater.phase(), UpdatePhase::Installing);
    assert_eq!(
        updater.step(chunk(1024, Some(4096))),
        vec![progress(1024, Some(4096))]
    );
    assert_eq!(
        updater.step(chunk(3072, Some(4096))),
        vec![progress(4096, Some(4096))]
    );
    assert_eq!(updater.downloaded(), 4096);
    assert_eq!(
        updater.step(UpdateEvent::DownloadFinished),
        vec![UpdateAction::Report(UpdateReport::DownloadFinished)]
    );
    assert_eq!(updater.phase(), UpdatePhase::Installing);
    assert_eq!(
        updater.step(UpdateEvent::InstallFinished),
        vec![UpdateAction::Report(UpdateReport::Installed), UpdateAction::Restart]
    );
    assert_eq!(updater.phase(), UpdatePhase::Installed);
    assert_eq!(updater.step(UpdateEvent::InstallFinished), vec![]);
    assert_eq!(updater.step(UpdateEvent::Failure), vec![]);
    assert_eq!(updater.phase(), UpdatePhase::Installed);
}

#[test]
fn progress_without_a_known_length() {
    let mut updater = Updater::new();
    updater.step(UpdateEvent::Available);
    assert_eq!(
        updater.step(chunk(10, None)),
        vec![progress(10, None)]
    );
    assert_eq!(
        updater.step(chunk(0, None)),
        vec![progress(10, None)]
    );
}

#[test]
fn failed_check_ends_the_update() {
    let mut updater = Updater::new();
    assert_eq!(updater.step(UpdateEvent::Failure), vec![]);
    assert_eq!(updater.phase(), UpdatePhase::Failed);
    assert_eq!(updater.step(UpdateEvent::Available), vec![]);
    assert_eq!(updater.phase(), UpdatePhase::Failed);
}

#[test]
fn failed_download_does_not_restart() {
    let mut updater = Updater::new();
    updater.step(UpdateEvent::Available);
    updater.step(chunk(5, Some(10)));
    assert_eq!(updater.step(UpdateEvent::Failure), vec![]);
    assert_eq!(updater.phase(), UpdatePhase::Failed);
    assert_eq!(updater.step(UpdateEvent::InstallFinished), vec![]);
    assert_eq!(updater.phase(), UpdatePhase::Failed);
    assert_eq!(updater.downloaded(), 5);
}

#[test]
fn reports_outside_their_phase_are_passed_over() {
    let mut updater = Updater::new();
    assert_eq!(updater.step(chunk(5, None)), vec![]);
    assert_eq!(updater.step(UpdateEvent::DownloadFinished), vec![]);
    assert_eq!(updater.step(UpdateEvent::InstallFinished), vec![]);
    assert_eq!(updater.phase(), UpdatePhase::Checking);
    assert_eq!(updater.downloaded(), 0);
    updater.step(UpdateEvent::Available);
    assert_eq!(updater.step(UpdateEvent::Available), vec![]);
    assert_eq!(updater.step(UpdateEvent::NoneAvailable), vec![]);
    assert_eq!(updater.phase(), UpdatePhase::Installing);
}

#[test]
fn fits_tells_when_the_count_would_overflow() {
    let mut updater = Updater::new();
    assert!(updater.fits(&chunk(usize::MAX, None)));
    updater.step(UpdateEvent::Available);
    assert!(updater.fits(&chunk(usize::MAX, None)));
    updater.step(chunk(1, None));
    assert!(!updater.fits(&chunk(usize::MAX, None)));
    assert!(updater.fits(&chunk(usize::MAX - 1, None)));
    assert!(updater.fits(&UpdateEvent::InstallFinished));
    updater.step(chunk(usize::MAX - 1, None));
    assert_eq!(updater.downloaded(), usize::MAX);
    assert!(updater.fits(&chunk(0, None)));
    assert!(!updater.fits(&chunk(1, None)));
}

#[test]
fn decimal_text_of_small_and_large_numbers() {
    assert_eq!(decimal_text(0), "0");
    assert_eq!(decimal_text(7), "7");
    assert_eq!(decimal_text(9), "9");
    assert_eq!(decimal_text(10), "10");
    assert_eq!(decimal_text(1234567890), "1234567890");
    assert_eq!(decimal_text(1000), "1000");
    assert_eq!(decimal_text(u64::MAX), "18446744073709551615");
}

#[test]
fn decimal_text_agrees_with_the_standard_library() {
    let mut n: u64 = 1;
    for _ in 0..64 {
        assert_eq!(decimal_text(n), format!("{}", n));
        assert_eq!(decimal_text(n - 1), format!("{}", n - 1));
        n = n.wrapping_mul(3).wrapping_add(11);
    }
}

#[test]
fn report_lines() {
    let known = UpdateReport::Progress { downloaded: 1024, content_length: Some(4096) };
    assert_eq!(known.text(), "downloaded 1024 from Some(4096)");
    let unknown = UpdateReport::Progress { downloaded: 0, content_length: None };
    assert_eq!(unknown.text(), "downloaded 0 from None");
    assert_eq!(UpdateReport::DownloadFinished.text(), "download finished");
    assert_eq!(UpdateReport::Installed.text(), "update installed");
}

#[test]
fn report_lines_agree_with_the_standard_library() {
    for (downloaded, content_length) in
        [(5usize, Some(0u64)), (usize::MAX, Some(u64::MAX)), (99, None), (100, Some(101))]
    {
        let report = UpdateReport::Progress { downloaded, content_length };
        assert_eq!(report.text(), format!("downloaded {downloaded} from {content_length:?}"));
    }
}
