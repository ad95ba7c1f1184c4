use fuse::config::ColorConfig;

fn changed(change: fn(&mut ColorConfig)) -> (ColorConfig, ColorConfig) {
    let before = ColorConfig::default();
    let mut after = before.clone();
    change(&mut after);
    (before, after)
}

#[test]
fn update_colors_replaces_the_five_colours_only() {
    let (mut before, after) = changed(|c| c.update_colors("#000001", "#000002", "#000003", "#000004", "#000005"));
    assert_eq!(after.background, "#000001");
    assert_eq!(after.primary, "#000002");
    assert_eq!(after.secondary, "#000003");
    assert_eq!(after.text, "#000004");
    assert_eq!(after.accent, "#000005");
    before.background = "#000001".to_string();
    before.primary = "#000002".to_string();
    before.secondary = "#000003".to_string();
    before.text = "#000004".to_string();
    before.accent = "#000005".to_string();
    assert!(before == after);
}

#[test]
fn text_setters_set_their_field_only() {
    let (mut b, a) = changed(|c| c.set_wallpaper("/w/x.png"));
    b.last_wallpaper = Some("/w/x.png".to_string());
    assert!(a == b);
    let (mut b, a) = changed(|c| c.set_preset("Gruvbox"));
    b.color_preset = Some("Gruvbox".to_string());
    assert!(a == b);
    let (mut b, a) = changed(|c| c.set_sidebar_position("right"));
    b.sidebar_position = Some("right".to_string());
    assert!(a == b);
    let (mut b, a) = changed(|c| c.set_rounding("sharp"));
    b.rounding = Some("sharp".to_string());
    assert!(a == b);
    let (mut b, a) = changed(|c| c.set_dashboard_tile_left("network"));
    b.dashboard_tile_left = Some("network".to_string());
    assert!(a == b);
    let (mut b, a) = changed(|c| c.set_sidepanel_content("github"));
    b.sidepanel_content = Some("github".to_string());
    assert!(a == b);
    let (mut b, a) = changed(|c| c.set_dashboard_position("left"));
    b.dashboard_position = Some("left".to_string());
    assert!(a == b);
    let (mut b, a) = changed(|c| c.set_dashboard_resource_1("gpu"));
    b.dashboard_resource_1 = Some("gpu".to_string());
    assert!(a == b);
    let (mut b, a) = changed(|c| c.set_dashboard_resource_2("disk"));
    b.dashboard_resource_2 = Some("disk".to_string());
    assert!(a == b);
    let (mut b, a) = changed(|c| c.set_notification_position("top-right"));
    b.notification_position = Some("top-right".to_string());
    assert!(a == b);
    let (mut b, a) = changed(|c| c.set_notification_rounding("none"));
    b.notification_rounding = Some("none".to_string());
    assert!(a == b);
    let (mut b, a) = changed(|c| c.set_notification_sound("bell.oga"));
    b.notification_sound = Some("bell.oga".to_string());
    assert!(a == b);
}

#[test]
fn flag_setters_set_their_field_only() {
    let (mut b, a) = changed(|c| c.set_notifications_enabled(false));
    b.notifications_enabled = Some(false);
    assert!(a == b);
    let (mut b, a) = changed(|c| c.set_notification_sounds_enabled(false));
    b.notification_sounds_enabled = Some(false);
    assert!(a == b);
    let (mut b, a) = changed(|c| c.set_sidebar_visible(false));
    b.sidebar_visible = Some(false);
    assert!(a == b);
    let (mut b, a) = changed(|c| c.set_show_hidden_files(true));
    b.show_hidden_files = Some(true);
    assert!(a == b);
    let (mut b, a) = changed(|c| c.set_scripts_autostart_battery(true));
    b.scripts_autostart_battery = Some(true);
    assert!(a == b);
    let (mut b, a) = changed(|c| c.set_scripts_autostart_screensaver(true));
    b.scripts_autostart_screensaver = Some(true);
    assert!(a == b);
    let (mut b, a) = changed(|c| c.set_scripts_autostart_autofloat(true));
    b.scripts_autostart_autofloat = Some(true);
    assert!(a == b);
    let (mut b, a) = changed(|c| c.set_scripts_use_lockscreen(true));
    b.scripts_use_lockscreen = Some(true);
    assert!(a == b);
}

#[test]
fn number_setters_set_their_field_only() {
    let (mut b, a) = changed(|c| c.set_ui_scale(125));
    b.ui_scale = Some(125);
    assert!(a == b);
    let (mut b, a) = changed(|c| c.set_battery_threshold(25));
    b.battery_threshold = Some(25);
    assert!(a == b);
    let (mut b, a) = changed(|c| c.set_screensaver_timeout(600));
    b.screensaver_timeout = Some(600);
    assert!(a == b);
    let (mut b, a) = changed(|c| c.set_autofloat_width(1280));
    b.autofloat_width = Some(1280);
    assert!(a == b);
    let (mut b, a) = changed(|c| c.set_autofloat_height(720));
    b.autofloat_height = Some(720);
    assert!(a == b);
    let (mut b, a) = changed(|c| c.set_quickshell_border_radius(4));
    b.quickshell_border_radius = Some(4);
    assert!(a == b);
}

#[test]
fn github_username_is_cleared_by_an_empty_name() {
    let mut c = ColorConfig::default();
    c.set_github_username("octocat");
    assert_eq!(c.github_username.as_deref(), Some("octocat"));
    let mut expected = ColorConfig::default();
    expected.github_username = Some("octocat".to_string());
    assert!(c == expected);
    c.set_github_username("");
    assert_eq!(c.github_username, None);
    assert!(c == ColorConfig::default());
    c.set_github_username(" ");
    assert_eq!(c.github_username.as_deref(), Some(" "));
}

#[test]
fn setters_on_distinct_fields_commute() {
    let mut x = ColorConfig::default();
    x.set_rounding("sharp");
    x.set_ui_scale(75);
    let mut y = ColorConfig::default();
    y.set_ui_scale(75);
    y.set_rounding("sharp");
    assert!(x == y);
}
