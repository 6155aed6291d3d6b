//! The install pipeline as an explicit state machine: strictly sequential
//! stages, an absorbing failure state, and the status line shown for each
//! stage. The surrounding shell performs each stage's outside work
//! (deleting, downloading, writing) and reports the outcome back as an
//! [`Event`]; every decision is taken here.

use crate::errors::InstallError;
use vstd::prelude::*;

verus! {

/// The stage an install run is in. `Failed` is absorbing and carries the
/// reason; `Complete` is absorbing too.
#[derive(Clone, Copy, PartialEq, Eq, Structural, Debug)]
pub enum Stage {
    Idle,
    Remediating,
    Downloading,
    Extracting,
    Finalizing,
    Complete,
    Failed(InstallError),
}

/// What the surrounding shell reports: the user asked to install (with
/// the readiness check's result at that moment), or the current stage's
/// outside work finished, well or badly.
#[derive(Clone, Copy, PartialEq, Eq, Structural, Debug)]
pub enum Event {
    InstallRequested(bool),
    StageOk,
    StageFailed(InstallError),
}

/// The transition function of the pipeline. An install request only
/// starts a run from `Idle`, and only when ready. The stages advance
/// strictly in order; remediation is best-effort, so its failure still
/// advances to the download; any later failure moves to `Failed` with
/// the stage's reason. Events that do not fit the stage change nothing.
pub open spec fn spec_step(s: Stage, ev: Event) -> Stage {
    match (s, ev) {
        (Stage::Idle, Event::InstallRequested(ready)) => if ready {
            Stage::Remediating
        } else {
            Stage::Idle
        },
        (Stage::Remediating, Event::StageOk) => Stage::Downloading,
        (Stage::Remediating, Event::StageFailed(_)) => Stage::Downloading,
        (Stage::Downloading, Event::StageOk) => Stage::Extracting,
        (Stage::Downloading, Event::StageFailed(e)) => Stage::Failed(e),
        (Stage::Extracting, Event::StageOk) => Stage::Finalizing,
        (Stage::Extracting, Event::StageFailed(e)) => Stage::Failed(e),
        (Stage::Finalizing, Event::StageOk) => Stage::Complete,
        (Stage::Finalizing, Event::StageFailed(e)) => Stage::Failed(e),
        _ => s,
    }
}

/// Advance the pipeline by one event, exactly as [`spec_step`] says.
pub fn step(s: Stage, ev: Event) -> (r: Stage)
    ensures
        r == spec_step(s, ev),
{
    match (s, ev) {
        (Stage::Idle, Event::InstallRequested(ready)) => if ready {
            Stage::Remediating
        } else {
            Stage::Idle
        },
        (Stage::Remediating, Event::StageOk) => Stage::Downloading,
        (Stage::Remediating, Event::StageFailed(_)) => Stage::Downloading,
        (Stage::Downloading, Event::StageOk) => Stage::Extracting,
        (Stage::Downloading, Event::StageFailed(e)) => Stage::Failed(e),
        (Stage::Extracting, Event::StageOk) => Stage::Finalizing,
        (Stage::Extracting, Event::StageFailed(e)) => Stage::Failed(e),
        (Stage::Finalizing, Event::StageOk) => Stage::Complete,
        (Stage::Finalizing, Event::StageFailed(e)) => Stage::Failed(e),
        _ => s,
    }
}

/// The status line the shell shows for a stage.
pub fn status_text(s: Stage) -> (r: String)
    ensures
        s is Idle ==> r@ == "Waiting for you"@,
        s is Remediating ==> r@ == "Removing the known-bad file"@,
        s is Downloading ==> r@ == "Downloading release"@,
        s is Extracting ==> r@ == "Extracting release"@,
        s is Finalizing ==> r@ == "Creating the mods directory"@,
        s is Complete ==> r@ == "Installation complete"@,
        s is Failed ==> r@ == "Installation failed"@,
{
    match s {
        Stage::Idle => "Waiting for you".to_owned(),
        Stage::Remediating => "Removing the known-bad file".to_owned(),
        Stage::Downloading => "Downloading release".to_owned(),
        Stage::Extracting => "Extracting release".to_owned(),
        Stage::Finalizing => "Creating the mods directory".to_owned(),
        Stage::Complete => "Installation complete".to_owned(),
        Stage::Failed(_) => "Installation failed".to_owned(),
    }
}

/// The fixed location of the release archive.
pub fn release_url() -> (r: String)
    ensures
        r@ == "https://github.com/Raytwo/Cobalt/releases/latest/download/release.zip"@,
{
    "https://github.com/Raytwo/Cobalt/releases/latest/download/release.zip".to_owned()
}

} // verus!
