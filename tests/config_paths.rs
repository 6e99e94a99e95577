use cli_common::config::{
    config_dir_for, config_dir_kind, default_identity_path, join_path, DirKind, Platform,
};

#[test]
fn macos_uses_data_dir() {
    assert_eq!(config_dir_kind(Platform::MacOs), DirKind::Data);
}

#[test]
fn other_platforms_use_config_dir() {
    assert_eq!(config_dir_kind(Platform::Other), DirKind::Config);
    assert_eq!(config_dir_kind(Platform::Windows), DirKind::Config);
}

#[test]
fn default_path_under_unix_config_dir() {
    assert_eq!(
        default_identity_path(Platform::Other, "/home/alice/.config"),
        "/home/alice/.config/age/keys.txt"
    );
}

#[test]
fn default_path_keeps_single_separator() {
    assert_eq!(
        default_identity_path(Platform::Other, "/home/alice/.config/"),
        "/home/alice/.config/age/keys.txt"
    );
}

#[test]
fn default_path_under_empty_dir_is_relative() {
    assert_eq!(default_identity_path(Platform::Other, ""), "age/keys.txt");
}

#[test]
fn default_path_on_macos() {
    assert_eq!(
        default_identity_path(Platform::MacOs, "/Users/alice/Library/Application Support"),
        "/Users/alice/Library/Application Support/age/keys.txt"
    );
}

#[test]
fn windows_join_inserts_backslash() {
    assert_eq!(
        default_identity_path(Platform::Windows, "C:\\Users\\alice\\AppData\\Roaming"),
        "C:\\Users\\alice\\AppData\\Roaming\\age/keys.txt"
    );
    assert_eq!(join_path(Platform::Windows, "C:\\dir\\", "x"), "C:\\dir\\x");
    assert_eq!(join_path(Platform::Windows, "C:/dir/", "x"), "C:/dir/x");
}

#[test]
fn backslash_is_no_separator_off_windows() {
    assert_eq!(join_path(Platform::Other, "dir\\", "x"), "dir\\/x");
}

#[test]
fn macos_picks_the_data_directory() {
    let r = config_dir_for(Platform::MacOs, Some("data".to_string()), Some("config".to_string()));
    assert_eq!(r, Some("data".to_string()));
    assert_eq!(config_dir_for(Platform::MacOs, None, Some("config".to_string())), None);
}

#[test]
fn other_platforms_pick_the_config_directory() {
    let r = config_dir_for(Platform::Other, Some("data".to_string()), Some("config".to_string()));
    assert_eq!(r, Some("config".to_string()));
    let w = config_dir_for(Platform::Windows, Some("data".to_string()), Some("config".to_string()));
    assert_eq!(w, Some("config".to_string()));
    assert_eq!(config_dir_for(Platform::Other, Some("data".to_string()), None), None);
}
