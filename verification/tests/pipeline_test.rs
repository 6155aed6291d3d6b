use cobalt_installer::errors::InstallError;
use cobalt_installer::pipeline::{release_url, status_text, step, Event, Stage};

#[test]
fn idle_starts_only_when_ready() {
    assert_eq!(step(Stage::Idle, Event::InstallRequested(true)), Stage::Remediating);
    assert_eq!(step(Stage::Idle, Event::InstallRequested(false)), Stage::Idle);
    assert_eq!(step(Stage::Idle, Event::StageOk), Stage::Idle);
}

#[test]
fn stages_advance_in_order() {
    assert_eq!(step(Stage::Remediating, Event::StageOk), Stage::Downloading);
    assert_eq!(step(Stage::Downloading, Event::StageOk), Stage::Extracting);
    assert_eq!(step(Stage::Extracting, Event::StageOk), Stage::Finalizing);
    assert_eq!(step(Stage::Finalizing, Event::StageOk), Stage::Complete);
}

#[test]
fn remediation_failure_still_downloads() {
    assert_eq!(
        step(Stage::Remediating, Event::StageFailed(InstallError::RemediationIo)),
        Stage::Downloading
    );
}

#[test]
fn later_failures_absorb_with_reason() {
    assert_eq!(
        step(Stage::Downloading, Event::StageFailed(InstallError::Network)),
        Stage::Failed(InstallError::Network)
    );
    assert_eq!(
        step(Stage::Extracting, Event::StageFailed(InstallError::ArchiveFormat)),
        Stage::Failed(InstallError::ArchiveFormat)
    );
    assert_eq!(
        step(Stage::Finalizing, Event::StageFailed(InstallError::ArchiveIo)),
        Stage::Failed(InstallError::ArchiveIo)
    );
    let failed = Stage::Failed(InstallError::Network);
    assert_eq!(step(failed, Event::StageOk), failed);
    assert_eq!(step(failed, Event::InstallRequested(true)), failed);
    assert_eq!(step(Stage::Complete, Event::StageOk), Stage::Complete);
}

#[test]
fn status_lines() {
    assert_eq!(status_text(Stage::Idle), "Waiting for you");
    assert_eq!(status_text(Stage::Downloading), "Downloading release");
    assert_eq!(status_text(Stage::Complete), "Installation complete");
    assert_eq!(status_text(Stage::Failed(InstallError::Network)), "Installation failed");
}

#[test]
fn release_url_is_fixed() {
    assert_eq!(
        release_url(),
        "https://github.com/Raytwo/Cobalt/releases/latest/download/release.zip"
    );
}

#[test]
fn exec_step_is_total() {
    // Every stage accepts every event without panicking.
    let stages = [
        Stage::Idle,
        Stage::Remediating,
        Stage::Downloading,
        Stage::Extracting,
        Stage::Finalizing,
        Stage::Complete,
        Stage::Failed(InstallError::PathResolution),
    ];
    let events = [
        Event::InstallRequested(true),
        Event::InstallRequested(false),
        Event::StageOk,
        Event::StageFailed(InstallError::Network),
    ];
    for s in stages {
        for ev in events {
            let _ = step(s, ev);
        }
    }
}
