use cobalt_installer::ready::{is_ready, InstallationMode};

#[test]
fn manual_path_ready_iff_path_nonempty() {
    assert!(is_ready(InstallationMode::ManualPath, "/tmp/sd", false));
    assert!(is_ready(InstallationMode::ManualPath, "/tmp/sd", true));
    assert!(is_ready(InstallationMode::ManualPath, "x", false));
    assert!(!is_ready(InstallationMode::ManualPath, "", false));
    assert!(!is_ready(InstallationMode::ManualPath, "", true));
}

#[test]
fn autodetected_ready_iff_probe() {
    assert!(is_ready(InstallationMode::AutoDetected, "", true));
    assert!(is_ready(InstallationMode::AutoDetected, "/ignored", true));
    assert!(!is_ready(InstallationMode::AutoDetected, "", false));
    assert!(!is_ready(InstallationMode::AutoDetected, "/ignored", false));
}
