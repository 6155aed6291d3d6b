use cobalt_installer::paths::{
    default_destination, emulator_data_dir, join_path, known_bad_file, mods_dir, parent_dir, Os,
};

#[test]
fn join_inserts_one_separator() {
    assert_eq!(join_path("/tmp/sd", "a/b.txt"), "/tmp/sd/a/b.txt");
    assert_eq!(join_path("", "c.txt"), "/c.txt");
}

#[test]
fn parent_is_everything_before_the_last_separator() {
    assert_eq!(parent_dir("/tmp/sd/a/b.txt"), Some("/tmp/sd/a".to_string()));
    assert_eq!(parent_dir("a/b"), Some("a".to_string()));
    assert_eq!(parent_dir("plain"), None);
    assert_eq!(parent_dir(""), None);
    assert_eq!(parent_dir("/x"), Some("".to_string()));
}

#[test]
fn data_dir_formulas_per_os() {
    assert_eq!(
        emulator_data_dir(Os::MacOs, Some("/Users/me")),
        Some("/Users/me/Library/Application Support/Ryujinx".to_string())
    );
    assert_eq!(
        emulator_data_dir(Os::Windows, Some("C:/Users/me/AppData/Roaming")),
        Some("C:/Users/me/AppData/Roaming/Ryujinx".to_string())
    );
    assert_eq!(
        emulator_data_dir(Os::Other, Some("/home/me")),
        Some("/home/me/.config/Ryujinx".to_string())
    );
    assert_eq!(emulator_data_dir(Os::MacOs, None), None);
    assert_eq!(emulator_data_dir(Os::Windows, None), None);
    assert_eq!(emulator_data_dir(Os::Other, None), None);
}

#[test]
fn derived_paths_append_fixed_suffixes() {
    assert_eq!(
        known_bad_file("/home/me/.config/Ryujinx"),
        "/home/me/.config/Ryujinx/mods/contents/0100a6301214e000/skyline/exefs/subsdk9"
    );
    assert_eq!(
        default_destination("/home/me/.config/Ryujinx"),
        "/home/me/.config/Ryujinx/sdcard"
    );
    assert_eq!(mods_dir("/tmp/sd"), "/tmp/sd/engage/mods");
}
