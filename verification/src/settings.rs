//! Persisted preferences and where they are stored.

use vstd::prelude::*;

use crate::platform::{JoinedPath, Platform};

verus! {

/// Persisted app preferences. Font discovery lives in `theme`.
#[derive(Clone, Debug)]
pub struct Settings {
    /// Preferred typeface (`"auto"` or absolute path of a system font file).
    pub preferred_font: String,
}

impl Default for Settings {
    fn default() -> (r: Self)
        ensures
            r.preferred_font@ == crate::theme::FONT_AUTO@,
    {
        Settings { preferred_font: String::from_str(crate::theme::FONT_AUTO) }
    }
}

/// The environment values that decide where preferences are stored.
#[derive(Debug)]
pub struct ConfigEnv {
    /// `APPDATA`, read on Windows.
    pub app_data: Option<String>,
    /// `HOME`.
    pub home: Option<String>,
    /// `XDG_CONFIG_HOME`, read on Linux.
    pub xdg_config_home: Option<String>,
}

/// A path as a base and its components.
pub open spec fn path_of(base: Seq<char>, tail: Seq<Seq<char>>) -> (Seq<char>, Seq<Seq<char>>) {
    (base, tail)
}

/// The directory that holds PinkDown's preferences on `platform`, given
/// `APPDATA`, `HOME` and `XDG_CONFIG_HOME`; the relative `./.pinkdown` when
/// the variables it needs are unset.
pub open spec fn config_dir_path(
    platform: Platform,
    app_data: Option<Seq<char>>,
    home: Option<Seq<char>>,
    xdg: Option<Seq<char>>,
) -> (Seq<char>, Seq<Seq<char>>) {
    let fallback = path_of("."@, seq![".pinkdown"@]);
    match platform {
        Platform::Windows => match app_data {
            Some(a) => path_of(a, seq!["PinkDown"@]),
            None => fallback,
        },
        Platform::MacOs => match home {
            Some(h) => path_of(h, seq!["Library"@, "Application Support"@, "PinkDown"@]),
            None => fallback,
        },
        Platform::Linux => match xdg {
            Some(x) => path_of(x, seq!["pinkdown"@]),
            None => match home {
                Some(h) => path_of(h, seq![".config"@, "pinkdown"@]),
                None => fallback,
            },
        },
        _ => match home {
            Some(h) => path_of(h, seq![".pinkdown"@]),
            None => fallback,
        },
    }
}

fn joined(base: String, parts: &[&str]) -> (r: JoinedPath)
    ensures
        r@ == path_of(base@, crate::platform::strs_view(parts@)),
{
    let mut tail: Vec<String> = Vec::new();
    let mut i: usize = 0;
    while i < parts.len()
        invariant
            i <= parts@.len(),
            tail.deep_view() == crate::platform::strs_view(parts@.take(i as int)),
        decreases parts@.len() - i,
    {
        let ghost prev = tail.deep_view();
        tail.push(String::from_str(parts[i]));
        assert(tail.deep_view() =~= prev.push(parts@[i as int]@));
        assert(parts@.take(i + 1) =~= parts@.take(i as int).push(parts@[i as int]));
        i = i + 1;
        assert(tail.deep_view() =~= crate::platform::strs_view(parts@.take(i as int)));
    }
    assert(parts@.take(i as int) =~= parts@);
    JoinedPath { base, tail }
}

/// The directory that holds PinkDown's preferences.
pub fn config_dir(platform: Platform, env: ConfigEnv) -> (r: JoinedPath)
    ensures
        r@ == config_dir_path(
            platform,
            crate::text::opt_view(env.app_data),
            crate::text::opt_view(env.home),
            crate::text::opt_view(env.xdg_config_home),
        ),
{
    let ConfigEnv { app_data, home, xdg_config_home } = env;
    let r = match platform {
        Platform::Windows => match app_data {
            Some(a) => joined(a, &["PinkDown"]),
            None => joined(String::from_str("."), &[".pinkdown"]),
        },
        Platform::MacOs => match home {
            Some(h) => joined(h, &["Library", "Application Support", "PinkDown"]),
            None => joined(String::from_str("."), &[".pinkdown"]),
        },
        Platform::Linux => match xdg_config_home {
            Some(x) => joined(x, &["pinkdown"]),
            None => match home {
                Some(h) => joined(h, &[".config", "pinkdown"]),
                None => joined(String::from_str("."), &[".pinkdown"]),
            },
        },
        _ => match home {
            Some(h) => joined(h, &[".pinkdown"]),
            None => joined(String::from_str("."), &[".pinkdown"]),
        },
    };
    assert(r@ =~= config_dir_path(
        platform,
        crate::text::opt_view(app_data),
        crate::text::opt_view(home),
        crate::text::opt_view(xdg_config_home),
    ));
    r
}

/// The preferences file: `settings.json` in the configuration directory.
pub fn settings_path(platform: Platform, env: ConfigEnv) -> (r: JoinedPath)
    ensures
        ({
            let dir = config_dir_path(
                platform,
                crate::text::opt_view(env.app_data),
                crate::text::opt_view(env.home),
                crate::text::opt_view(env.xdg_config_home),
            );
            r@ == path_of(dir.0, dir.1.push("settings.json"@))
        }),
{
    let mut dir = config_dir(platform, env);
    dir.tail.push(String::from_str("settings.json"));
    dir
}

} // verus!
