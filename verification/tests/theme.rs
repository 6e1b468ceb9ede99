use kdeconnect::theme::{accent_path, mode_path, parse_is_dark, theme_dir};

#[test]
fn dark_mode_preference() {
    assert!(parse_is_dark(None));
    assert!(parse_is_dark(Some("true")));
    assert!(parse_is_dark(Some(" true\n")));
    assert!(!parse_is_dark(Some("false")));
    assert!(!parse_is_dark(Some("")));
    assert!(!parse_is_dark(Some("True")));
}

#[test]
fn theme_paths() {
    assert_eq!(theme_dir(true), "CosmicTheme.Dark");
    assert_eq!(theme_dir(false), "CosmicTheme.Light");
    assert_eq!(mode_path("/home/u"), "/home/u/.config/cosmic/com.system76.CosmicTheme.Mode/v1/is_dark");
    assert_eq!(accent_path("/home/u", true), "/home/u/.config/cosmic/com.system76.CosmicTheme.Dark/v1/accent");
    assert_eq!(accent_path("/home/u/", false), "/home/u/.config/cosmic/com.system76.CosmicTheme.Light/v1/accent");
}
