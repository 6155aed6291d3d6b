//! Installation readiness: the pure predicate that gates the install action.

use vstd::prelude::*;

verus! {

/// How the destination of the installation is chosen: either the emulator's
/// data directory is auto-detected, or the user supplies a path by hand.
#[derive(Clone, Copy, PartialEq, Eq, Structural, Debug)]
pub enum InstallationMode {
    AutoDetected,
    ManualPath,
}

/// Whether an installation may start.
///
/// In `ManualPath` mode the install is ready exactly when the user has
/// supplied a non-empty path. In `AutoDetected` mode it is ready exactly
/// when the probe (did the resolved emulator data directory exist on
/// disk?) reported true; the probe's result is passed in so that this
/// decision stays a pure function.
pub fn is_ready(mode: InstallationMode, manual_path: &str, autodetect_probe: bool) -> (r: bool)
    ensures
        mode is ManualPath ==> r == (manual_path@.len() > 0),
        mode is AutoDetected ==> r == autodetect_probe,
{
    match mode {
        InstallationMode::ManualPath => manual_path.unicode_len() > 0,
        InstallationMode::AutoDetected => autodetect_probe,
    }
}

} // verus!
