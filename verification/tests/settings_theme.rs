use pinkdown::platform::Platform;
use pinkdown::settings::{config_dir, settings_path, ConfigEnv, Settings};
use pinkdown::theme::{font_candidates, icon_rgba, FONT_AUTO};
use pinkdown::window::native_window_style;

fn env(app_data: Option<&str>, home: Option<&str>, xdg: Option<&str>) -> ConfigEnv {
    ConfigEnv {
        app_data: app_data.map(str::to_owned),
        home: home.map(str::to_owned),
        xdg_config_home: xdg.map(str::to_owned),
    }
}

#[test]
fn default_settings_pick_the_font_automatically() {
    assert_eq!(Settings::default().preferred_font, FONT_AUTO);
    assert_eq!(FONT_AUTO, "auto");
}

#[test]
fn config_dir_follows_platform_conventions() {
    let w = config_dir(Platform::Windows, env(Some("C:\\Users\\me\\AppData\\Roaming"), None, None));
    assert_eq!((w.base.as_str(), w.tail.clone()), ("C:\\Users\\me\\AppData\\Roaming", vec!["PinkDown".to_owned()]));
    let m = config_dir(Platform::MacOs, env(None, Some("/Users/me"), None));
    assert_eq!(m.tail, vec!["Library", "Application Support", "PinkDown"]);
    let l = config_dir(Platform::Linux, env(None, Some("/home/me"), Some("/xdg")));
    assert_eq!((l.base.as_str(), l.tail.clone()), ("/xdg", vec!["pinkdown".to_owned()]));
    let l = config_dir(Platform::Linux, env(None, Some("/home/me"), None));
    assert_eq!(l.tail, vec![".config", "pinkdown"]);
    let o = config_dir(Platform::OtherUnix, env(None, Some("/home/me"), None));
    assert_eq!(o.tail, vec![".pinkdown"]);
    let f = config_dir(Platform::Windows, env(None, Some("/home/me"), None));
    assert_eq!((f.base.as_str(), f.tail.clone()), (".", vec![".pinkdown".to_owned()]));
}

#[test]
fn settings_file_lives_in_the_config_dir() {
    let p = settings_path(Platform::Linux, env(None, Some("/home/me"), None));
    assert_eq!(p.base, "/home/me");
    assert_eq!(p.tail, vec![".config", "pinkdown", "settings.json"]);
}

#[test]
fn font_candidates_depend_on_the_platform() {
    assert_eq!(font_candidates(Platform::Windows).len(), 3);
    assert_eq!(font_candidates(Platform::MacOs)[0], "/System/Library/Fonts/PingFang.ttc");
    assert_eq!(font_candidates(Platform::Linux).len(), 2);
    assert!(font_candidates(Platform::OtherUnix).is_empty());
}

#[test]
fn icon_is_a_pink_page_with_a_gold_fold() {
    let rgba = icon_rgba();
    assert_eq!(rgba.len(), 64 * 64 * 4);
    let pixel = |x: usize, y: usize| &rgba[(y * 64 + x) * 4..(y * 64 + x) * 4 + 4];
    assert_eq!(pixel(0, 0), [25, 23, 36, 255]);
    assert_eq!(pixel(20, 30), [235, 111, 146, 255]);
    assert_eq!(pixel(50, 10), [246, 193, 119, 255]);
    assert_eq!(pixel(60, 60), [25, 23, 36, 255]);
    assert_eq!(pixel(50, 2), [246, 193, 119, 255]);
}

#[test]
fn native_window_style_drops_the_caption_and_keeps_sizing() {
    assert_eq!(native_window_style(0x00CF_0000), 0x000F_0000);
    assert_eq!(native_window_style(0x1000_0001), 0x100F_0001);
}
