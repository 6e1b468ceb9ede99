//! Where the COSMIC desktop keeps its theme settings on the host, and how
//! the dark/light preference is read. The accent colour itself is floating
//! point and is parsed by the caller.

use vstd::prelude::*;
use crate::text::{join_path, path_join, trim, trim_str};

verus! {

/// The preference file's content means dark mode: a missing file means dark,
/// otherwise the trimmed content must be `true`.
pub open spec fn spec_is_dark(content: Option<Seq<char>>) -> bool {
    match content {
        Some(s) => trim(s) == "true"@,
        None => true,
    }
}

/// Reads the dark/light preference from the content of COSMIC's `is_dark`
/// file, `None` when it could not be read.
pub fn parse_is_dark(content: Option<&str>) -> (r: bool)
    ensures
        r == spec_is_dark(
            match content {
                Some(s) => Some(s@),
                None => None,
            },
        ),
{
    match content {
        Some(s) => {
            let t = trim_str(s);
            let expected = "true".to_owned();
            t == expected
        },
        None => true,
    }
}

pub open spec fn spec_theme_dir(is_dark: bool) -> Seq<char> {
    if is_dark {
        "CosmicTheme.Dark"@
    } else {
        "CosmicTheme.Light"@
    }
}

/// The theme directory for the mode.
pub fn theme_dir(is_dark: bool) -> (r: &'static str)
    ensures
        r@ == spec_theme_dir(is_dark),
{
    if is_dark {
        "CosmicTheme.Dark"
    } else {
        "CosmicTheme.Light"
    }
}

/// `~/.config/cosmic` below the home directory.
pub open spec fn cosmic_config_dir(home: Seq<char>) -> Seq<char> {
    path_join(path_join(home, ".config"@), "cosmic"@)
}

/// `~/.config/cosmic/com.system76.CosmicTheme.Mode/v1/is_dark`.
pub open spec fn spec_mode_path(home: Seq<char>) -> Seq<char> {
    path_join(
        path_join(path_join(cosmic_config_dir(home), "com.system76.CosmicTheme.Mode"@), "v1"@),
        "is_dark"@,
    )
}

/// `~/.config/cosmic/com.system76.<theme dir>/v1/accent`.
pub open spec fn spec_accent_path(home: Seq<char>, is_dark: bool) -> Seq<char> {
    path_join(
        path_join(
            path_join(cosmic_config_dir(home), "com.system76."@ + spec_theme_dir(is_dark)),
            "v1"@,
        ),
        "accent"@,
    )
}

fn config_dir(home: &str) -> (r: String)
    ensures
        r@ == cosmic_config_dir(home@),
{
    let c = join_path(home, ".config");
    join_path(c.as_str(), "cosmic")
}

/// Path of the file holding the dark/light preference.
pub fn mode_path(home: &str) -> (r: String)
    ensures
        r@ == spec_mode_path(home@),
{
    let c = config_dir(home);
    let m = join_path(c.as_str(), "com.system76.CosmicTheme.Mode");
    let v = join_path(m.as_str(), "v1");
    join_path(v.as_str(), "is_dark")
}

/// Path of the accent colour file for the mode.
pub fn accent_path(home: &str, is_dark: bool) -> (r: String)
    ensures
        r@ == spec_accent_path(home@, is_dark),
{
    let c = config_dir(home);
    let mut dir = "com.system76.".to_owned();
    dir.append(theme_dir(is_dark));
    let t = join_path(c.as_str(), dir.as_str());
    let v = join_path(t.as_str(), "v1");
    join_path(v.as_str(), "accent")
}

} // verus!
