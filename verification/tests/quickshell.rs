use fuse::config::ColorConfig;
use fuse::error::ConfigError;
use fuse::quickshell::{get_wallpapers_path, notify_color_change, set_wallpaper};
use fuse::session::{change_result, notice_result, Followup};
use fuse::sidebar_prefs::SidebarPrefs;

#[test]
fn change_notice_holds_path_and_token() {
    let (n, token) = notify_color_change("/home/u/.config/alloy/colors.json", 1761685200123, None);
    assert_eq!(token, 1761685200123);
    assert_eq!(n.file, "/tmp/quickshell_color_change");
    assert_eq!(n.content, "/home/u/.config/alloy/colors.json\nreload_1761685200123");
    let (n, token) = notify_color_change("", 0, None);
    assert_eq!(token, 0);
    assert_eq!(n.content, "\nreload_0");
}

#[test]
fn change_token_is_the_time_when_the_clock_has_gone_on() {
    let (n, token) = notify_color_change("/p/colors.json", 42, Some(41));
    assert_eq!(token, 42);
    assert_eq!(n.content, "/p/colors.json\nreload_42");
    let (_, token) = notify_color_change("/p/colors.json", 1000, Some(0));
    assert_eq!(token, 1000);
}

#[test]
fn change_token_differs_from_the_last_when_the_clock_stands_still() {
    let (first, t1) = notify_color_change("/p/colors.json", 42, None);
    let (second, t2) = notify_color_change("/p/colors.json", 42, Some(t1));
    let (third, t3) = notify_color_change("/p/colors.json", 42, Some(t2));
    assert_eq!((t1, t2, t3), (42, 43, 44));
    assert_eq!(second.content, "/p/colors.json\nreload_43");
    assert_ne!(first.content, second.content);
    assert_ne!(second.content, third.content);
}

#[test]
fn change_token_differs_from_the_last_when_the_clock_goes_back() {
    let (n, token) = notify_color_change("/p/colors.json", 0, Some(500));
    assert_eq!(token, 501);
    assert_eq!(n.content, "/p/colors.json\nreload_501");
    let (n, token) = notify_color_change("/p/colors.json", 0, Some(0));
    assert_eq!(token, 1);
    assert_eq!(n.content, "/p/colors.json\nreload_1");
}

#[test]
fn change_token_starts_again_after_the_largest() {
    let (n, token) = notify_color_change("/p/colors.json", 7, Some(u128::MAX));
    assert_eq!(token, 0);
    assert_eq!(n.content, "/p/colors.json\nreload_0");
    let (_, token) = notify_color_change("/p/colors.json", u128::MAX, Some(u128::MAX));
    assert_eq!(token, 0);
    let (_, token) = notify_color_change("/p/colors.json", u128::MAX, Some(u128::MAX - 1));
    assert_eq!(token, u128::MAX);
}

#[test]
fn change_notice_names_the_settings_file_on_its_first_line() {
    let (n, _) = notify_color_change("/p/colors.json", 42, Some(41));
    assert_eq!(n.content.lines().next(), Some("/p/colors.json"));
    assert_eq!(n.content.lines().count(), 2);
}

#[test]
fn wallpaper_notice_is_the_path_alone() {
    let colours = r##""background":"#1","primary":"#2","secondary":"#3","text":"#4","accent":"#5""##;
    let file = format!("{{{},\"rounding\":\"sharp\"}}", colours);
    let change = set_wallpaper("/w/forest.png", Some(&file));
    assert_eq!(change.notice.file, "/tmp/quickshell_wallpaper_path");
    assert_eq!(change.notice.content, "/w/forest.png");
    let mut expected = ColorConfig::load(Some(&file));
    expected.set_wallpaper("/w/forest.png");
    assert!(change.config == expected);
    assert_eq!(change.config.rounding.as_deref(), Some("sharp"));
    assert_eq!(change.config.last_wallpaper.as_deref(), Some("/w/forest.png"));
}

#[test]
fn wallpaper_is_recorded_in_defaults_without_a_file() {
    let change = set_wallpaper("/w/sea.png", None);
    let mut expected = ColorConfig::default();
    expected.set_wallpaper("/w/sea.png");
    assert!(change.config == expected);
}

#[test]
fn wallpapers_are_in_pictures() {
    assert_eq!(get_wallpapers_path(Some("/home/u")), "/home/u/Pictures/Wallpapers");
    assert_eq!(get_wallpapers_path(Some("/home/u/")), "/home/u/Pictures/Wallpapers");
    assert_eq!(get_wallpapers_path(None), "/tmp/wallpapers");
}

#[test]
fn sidebar_prefs_are_in_the_config_dir() {
    assert_eq!(SidebarPrefs::config_path(Some("/home/u/.config")), "/home/u/.config/index/.sidebar_prefs");
    assert_eq!(SidebarPrefs::config_path(None), "./index/.sidebar_prefs");
}

#[test]
fn commit_swaps_only_after_a_save_that_succeeded() {
    let mut shared = ColorConfig::default();
    let mut changed = ColorConfig::default();
    changed.set_rounding("sharp");

    let next = shared.commit(changed.clone(), Err(ConfigError::Write), 200);
    assert_eq!(next, Followup::Nothing);
    assert!(shared == ColorConfig::default());

    let next = shared.commit(changed.clone(), Ok(()), 200);
    assert_eq!(next, Followup::Notify { delay_ms: 200 });
    assert!(shared == changed);
}

#[test]
fn failed_notice_does_not_touch_the_save() {
    assert_eq!(notice_result(true), Ok(()));
    assert_eq!(notice_result(false), Err(ConfigError::Notify));
    for saved in [Ok(()), Err(ConfigError::Write)] {
        assert_eq!(change_result(saved, None), saved);
        assert_eq!(change_result(saved, Some(notice_result(true))), saved);
        assert_eq!(change_result(saved, Some(notice_result(false))), saved);
    }
    let mut shared = ColorConfig::default();
    let mut changed = ColorConfig::default();
    changed.set_ui_scale(125);
    let next = shared.commit(changed.clone(), Ok(()), 300);
    assert_eq!(next, Followup::Notify { delay_ms: 300 });
    let result = change_result(Ok(()), Some(notice_result(false)));
    assert_eq!(result, Ok(()));
    assert!(shared == changed);
}

#[test]
fn errors_describe_themselves() {
    assert_eq!(ConfigError::NotFound.message(), "settings file not found");
    assert_eq!(ConfigError::Parse.message(), "settings file is not a settings document");
    assert_eq!(ConfigError::Write.message(), "settings file could not be written");
    assert_eq!(ConfigError::Notify.message(), "change notification could not be written");
}
