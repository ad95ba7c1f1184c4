use fuse::config::ColorConfig;
use fuse::error::ConfigError;
use fuse::schema::Palette;

fn parse(text: &str) -> serde_json::Value {
    serde_json::from_str::<serde_json::Value>(text).unwrap()
}

fn full_document() -> ColorConfig {
    ColorConfig {
        background: "#101010".to_string(),
        primary: "#202020".to_string(),
        secondary: "#303030".to_string(),
        text: "#f0f0f0".to_string(),
        accent: "tomato".to_string(),
        last_wallpaper: Some("/home/u/Pictures/Wallpapers/a \"b\".png".to_string()),
        color_preset: Some("Nord".to_string()),
        sidebar_position: Some("right".to_string()),
        notifications_enabled: Some(false),
        notification_sounds_enabled: Some(true),
        sidebar_visible: Some(false),
        rounding: Some("sharp".to_string()),
        show_hidden_files: Some(true),
        ui_scale: Some(125),
        dashboard_tile_left: Some("network".to_string()),
        sidepanel_content: Some("github".to_string()),
        github_username: Some("octo\ncat".to_string()),
        dashboard_position: Some("left".to_string()),
        scripts_autostart_battery: Some(true),
        scripts_autostart_screensaver: Some(true),
        battery_threshold: Some(255),
        screensaver_timeout: Some(4294967295),
        dashboard_resource_1: Some("gpu".to_string()),
        dashboard_resource_2: Some("disk".to_string()),
        scripts_autostart_autofloat: Some(true),
        autofloat_width: Some(0),
        autofloat_height: Some(1),
        scripts_use_lockscreen: Some(true),
        notification_position: Some("top-left".to_string()),
        notification_rounding: Some("pill".to_string()),
        quickshell_border_radius: Some(8),
        notification_sound: Some("żółć.oga".to_string()),
    }
}

fn bare_document() -> ColorConfig {
    ColorConfig {
        background: "a".to_string(),
        primary: "b".to_string(),
        secondary: "c".to_string(),
        text: "d".to_string(),
        accent: "e".to_string(),
        last_wallpaper: None,
        color_preset: None,
        sidebar_position: None,
        notifications_enabled: None,
        notification_sounds_enabled: None,
        sidebar_visible: None,
        rounding: None,
        show_hidden_files: None,
        ui_scale: None,
        dashboard_tile_left: None,
        sidepanel_content: None,
        github_username: None,
        dashboard_position: None,
        scripts_autostart_battery: None,
        scripts_autostart_screensaver: None,
        battery_threshold: None,
        screensaver_timeout: None,
        dashboard_resource_1: None,
        dashboard_resource_2: None,
        scripts_autostart_autofloat: None,
        autofloat_width: None,
        autofloat_height: None,
        scripts_use_lockscreen: None,
        notification_position: None,
        notification_rounding: None,
        quickshell_border_radius: None,
        notification_sound: None,
    }
}

const COLOURS: &str = r##""background":"#1","primary":"#2","secondary":"#3","text":"#4","accent":"#5""##;

#[test]
fn default_document_has_documented_values() {
    let d = ColorConfig::default();
    assert_eq!(d.background, "#0a0a0a");
    assert_eq!(d.primary, "#1a1a1a");
    assert_eq!(d.secondary, "#121212");
    assert_eq!(d.text, "#ffffff");
    assert_eq!(d.accent, "#4a9eff");
    assert_eq!(d.last_wallpaper, None);
    assert_eq!(d.color_preset, None);
    assert_eq!(d.sidebar_position.as_deref(), Some("left"));
    assert_eq!(d.notifications_enabled, Some(true));
    assert_eq!(d.notification_sounds_enabled, Some(true));
    assert_eq!(d.sidebar_visible, Some(true));
    assert_eq!(d.rounding.as_deref(), Some("rounded"));
    assert_eq!(d.show_hidden_files, Some(false));
    assert_eq!(d.ui_scale, Some(100));
    assert_eq!(d.dashboard_tile_left.as_deref(), Some("battery"));
    assert_eq!(d.sidepanel_content.as_deref(), Some("calendar"));
    assert_eq!(d.github_username, None);
    assert_eq!(d.dashboard_position.as_deref(), Some("right"));
    assert_eq!(d.scripts_autostart_battery, Some(false));
    assert_eq!(d.scripts_autostart_screensaver, Some(false));
    assert_eq!(d.battery_threshold, Some(10));
    assert_eq!(d.screensaver_timeout, Some(30));
    assert_eq!(d.dashboard_resource_1.as_deref(), Some("cpu"));
    assert_eq!(d.dashboard_resource_2.as_deref(), Some("ram"));
    assert_eq!(d.scripts_autostart_autofloat, Some(false));
    assert_eq!(d.autofloat_width, Some(1000));
    assert_eq!(d.autofloat_height, Some(700));
    assert_eq!(d.scripts_use_lockscreen, Some(false));
    assert_eq!(d.notification_position.as_deref(), Some("top"));
    assert_eq!(d.notification_rounding.as_deref(), Some("standard"));
    assert_eq!(d.quickshell_border_radius, Some(0));
    assert_eq!(d.notification_sound.as_deref(), Some("message.oga"));
}

#[test]
fn clone_and_equality_go_by_every_field() {
    let d = full_document();
    let c = d.clone();
    assert!(c == d);
    let mut e = d.clone();
    e.set_autofloat_height(2);
    assert!(e != d);
    let mut f = d.clone();
    f.github_username = None;
    assert!(f != d);
    assert!(bare_document() == bare_document());
    assert!(bare_document() != ColorConfig::default());
}

#[test]
fn load_without_file_gives_defaults() {
    assert!(ColorConfig::load(None) == ColorConfig::default());
    assert_eq!(ColorConfig::try_load(None).unwrap_err(), ConfigError::NotFound);
}

#[test]
fn load_of_corrupt_text_gives_defaults() {
    for text in ["", "{", "{not json", "[1, 2", "{\"background\": }", "nul", "{\"a\":1} trailing"] {
        assert!(ColorConfig::load(Some(text)) == ColorConfig::default(), "text {:?}", text);
        assert_eq!(ColorConfig::try_load(Some(text)).unwrap_err(), ConfigError::Parse, "text {:?}", text);
    }
}

#[test]
fn load_of_json_that_is_no_document_gives_defaults() {
    let missing_accent = r##"{"background":"#1","primary":"#2","secondary":"#3","text":"#4"}"##;
    let null_colour = r##"{"background":null,"primary":"#2","secondary":"#3","text":"#4","accent":"#5"}"##;
    let number_colour = r##"{"background":7,"primary":"#2","secondary":"#3","text":"#4","accent":"#5"}"##;
    for text in ["null", "true", "12", "\"text\"", "[]", "{}", missing_accent, null_colour, number_colour] {
        assert!(ColorConfig::load(Some(text)) == ColorConfig::default(), "text {:?}", text);
        assert_eq!(ColorConfig::try_load(Some(text)).unwrap_err(), ConfigError::Parse, "text {:?}", text);
    }
}

#[test]
fn load_reads_every_field_under_its_key() {
    let text = r##"{
        "background": "#101010", "primary": "#202020", "secondary": "#303030",
        "text": "#f0f0f0", "accent": "tomato",
        "lastWallpaper": "/home/u/Pictures/Wallpapers/a \"b\".png",
        "colorPreset": "Nord", "sidebarPosition": "right",
        "notificationsEnabled": false, "notificationSoundsEnabled": true,
        "sidebarVisible": false, "rounding": "sharp", "showHiddenFiles": true,
        "uiScale": 125, "dashboardTileLeft": "network", "sidepanelContent": "github",
        "githubUsername": "octo\ncat", "dashboardPosition": "left",
        "scriptsAutostartBattery": true, "scriptsAutostartScreensaver": true,
        "batteryThreshold": 255, "screensaverTimeout": 4294967295,
        "dashboardResource1": "gpu", "dashboardResource2": "disk",
        "scriptsAutostartAutofloat": true, "autofloatWidth": 0, "autofloatHeight": 1,
        "scriptsUseLockscreen": true, "notificationPosition": "top-left",
        "notificationRounding": "pill", "quickshellBorderRadius": 8,
        "notificationSound": "żółć.oga"
    }"##;
    let loaded = ColorConfig::try_load(Some(text)).unwrap();
    assert!(loaded == full_document());
}

#[test]
fn load_leaves_absent_preferences_absent() {
    let text = r##"{"background":"a","primary":"b","secondary":"c","text":"d","accent":"e"}"##;
    let loaded = ColorConfig::load(Some(text));
    assert!(loaded == bare_document());
    assert_eq!(loaded.ui_scale, None);
    assert_eq!(loaded.sidebar_position, None);
}

#[test]
fn load_takes_null_preferences_as_absent_and_passes_over_unknown_members() {
    let text = r##"{"background":"a","primary":"b","secondary":"c","text":"d","accent":"e",
        "uiScale": null, "rounding": null, "sidebarVisible": null, "autofloatWidth": null,
        "somethingElse": [1, 2, {"x": 1.5}], "presets": 3}"##;
    assert!(ColorConfig::try_load(Some(text)).unwrap() == bare_document());
}

#[test]
fn load_rejects_preferences_of_the_wrong_type() {
    let cases = [
        r#""uiScale": "100""#,
        r#""uiScale": 256"#,
        r#""uiScale": -1"#,
        r#""uiScale": 100.0"#,
        r#""uiScale": 1e2"#,
        r#""batteryThreshold": true"#,
        r#""quickshellBorderRadius": 300"#,
        r#""screensaverTimeout": 4294967296"#,
        r#""screensaverTimeout": 18446744073709551616"#,
        r#""autofloatWidth": -5"#,
        r#""autofloatHeight": "700""#,
        r#""sidebarVisible": "true""#,
        r#""sidebarVisible": 1"#,
        r#""notificationsEnabled": []"#,
        r#""rounding": 3"#,
        r#""rounding": false"#,
        r#""lastWallpaper": {}"#,
        r#""colorPreset": ["Nord"]"#,
    ];
    for case in cases {
        let text = format!("{{{},{}}}", COLOURS, case);
        assert_eq!(ColorConfig::try_load(Some(&text)).unwrap_err(), ConfigError::Parse, "case {}", case);
        assert!(ColorConfig::load(Some(&text)) == ColorConfig::default(), "case {}", case);
    }
}

#[test]
fn load_accepts_the_limits_of_the_numbers() {
    let text = format!(
        "{{{},\"uiScale\":0,\"batteryThreshold\":255,\"screensaverTimeout\":4294967295,\"autofloatWidth\":0}}",
        COLOURS
    );
    let d = ColorConfig::try_load(Some(&text)).unwrap();
    assert_eq!(d.ui_scale, Some(0));
    assert_eq!(d.battery_threshold, Some(255));
    assert_eq!(d.screensaver_timeout, Some(4294967295));
    assert_eq!(d.autofloat_width, Some(0));
}

#[test]
fn from_json_reads_fields_and_leaves_presets_alone() {
    let doc = parse(
        r##"{"background":"#1","primary":"#2","secondary":"#3","text":"#4","accent":"#5",
            "colorPreset":"X",
            "presets":{"X":{"background":"#a","primary":"#b","secondary":"#c","text":"#d","accent":"#e"}}}"##,
    );
    let d = ColorConfig::from_json(&doc).unwrap();
    assert_eq!(d.background, "#1");
    assert_eq!(d.accent, "#5");
    assert_eq!(d.color_preset.as_deref(), Some("X"));
    assert_eq!(ColorConfig::from_json(&parse("[]")).unwrap_err(), ConfigError::Parse);
}

#[test]
fn preset_in_file_overrides_root_colours() {
    let text = r##"{"background":"#1","primary":"#2","secondary":"#3","text":"#4","accent":"#5",
        "colorPreset":"X", "uiScale": 75,
        "presets":{
            "W":{"background":"#0","primary":"#0","secondary":"#0","text":"#0","accent":"#0"},
            "X":{"background":"#a","primary":"#b","secondary":"#c","text":"#d","accent":"#e"}}}"##;
    let d = ColorConfig::load(Some(text));
    assert_eq!(d.background, "#a");
    assert_eq!(d.primary, "#b");
    assert_eq!(d.secondary, "#c");
    assert_eq!(d.text, "#d");
    assert_eq!(d.accent, "#e");
    assert_eq!(d.color_preset.as_deref(), Some("X"));
    assert_eq!(d.ui_scale, Some(75));
}

#[test]
fn preset_missing_from_file_keeps_root_colours() {
    let text = r##"{"background":"#1","primary":"#2","secondary":"#3","text":"#4","accent":"#5",
        "colorPreset":"Y",
        "presets":{"X":{"background":"#a","primary":"#b","secondary":"#c","text":"#d","accent":"#e"}}}"##;
    let d = ColorConfig::load(Some(text));
    assert_eq!(d.background, "#1");
    assert_eq!(d.primary, "#2");
    assert_eq!(d.secondary, "#3");
    assert_eq!(d.text, "#4");
    assert_eq!(d.accent, "#5");
    assert_eq!(d.color_preset.as_deref(), Some("Y"));
}

#[test]
fn preset_that_is_incomplete_or_misshapen_keeps_root_colours() {
    let presets = [
        r##""presets":{"X":{"background":"#a","primary":"#b","secondary":"#c","text":"#d"}}"##,
        r##""presets":{"X":{"background":"#a","primary":"#b","secondary":"#c","text":"#d","accent":5}}"##,
        r##""presets":{"X":{"background":"#a","primary":"#b","secondary":"#c","text":"#d","accent":null}}"##,
        r##""presets":{"X":"#abcdef"}"##,
        r##""presets":{"X":["#a","#b","#c","#d","#e"]}"##,
        r##""presets":["X"]"##,
        r##""presets":null"##,
        r##""other":1"##,
    ];
    for p in presets {
        let text = format!("{{{},\"colorPreset\":\"X\",{}}}", COLOURS, p);
        let d = ColorConfig::try_load(Some(&text)).unwrap();
        assert_eq!(d.background, "#1", "presets {}", p);
        assert_eq!(d.primary, "#2", "presets {}", p);
        assert_eq!(d.secondary, "#3", "presets {}", p);
        assert_eq!(d.text, "#4", "presets {}", p);
        assert_eq!(d.accent, "#5", "presets {}", p);
    }
}

#[test]
fn presets_are_not_used_without_a_preset_name() {
    let text = format!(
        "{{{},\"presets\":{{\"X\":{{\"background\":\"#a\",\"primary\":\"#b\",\"secondary\":\"#c\",\"text\":\"#d\",\"accent\":\"#e\"}}}}}}",
        COLOURS
    );
    let d = ColorConfig::try_load(Some(&text)).unwrap();
    assert_eq!(d.background, "#1");
    assert_eq!(d.accent, "#5");
}

#[test]
fn palette_is_found_by_name() {
    let doc = parse(
        r##"{"presets":{"Nord":{"background":"#2e3440","primary":"#3b4252","secondary":"#434c5e","text":"#eceff4","accent":"#88c0d0","extra":1}}}"##,
    );
    let p = Palette::find(&doc, "Nord").unwrap();
    assert_eq!(p.background, "#2e3440");
    assert_eq!(p.primary, "#3b4252");
    assert_eq!(p.secondary, "#434c5e");
    assert_eq!(p.text, "#eceff4");
    assert_eq!(p.accent, "#88c0d0");
    assert!(Palette::find(&doc, "nord").is_none());
    assert!(Palette::find(&doc, "").is_none());
    assert!(Palette::from_json(&parse("{}")).is_none());
    assert!(Palette::from_json(&parse("7")).is_none());
}

#[test]
fn resolve_preset_and_apply_palette_touch_only_the_colours() {
    let doc = parse(
        r##"{"presets":{"Nord":{"background":"#2e3440","primary":"#3b4252","secondary":"#434c5e","text":"#eceff4","accent":"#88c0d0"}}}"##,
    );
    let mut d = full_document();
    d.resolve_preset(&doc);
    let mut expected = full_document();
    expected.update_colors("#2e3440", "#3b4252", "#434c5e", "#eceff4", "#88c0d0");
    assert!(d == expected);

    let mut unnamed = full_document();
    unnamed.color_preset = None;
    let before = unnamed.clone();
    unnamed.resolve_preset(&doc);
    assert!(unnamed == before);

    let mut e = bare_document();
    e.apply_palette(&Palette::find(&doc, "Nord").unwrap());
    let mut expected_bare = bare_document();
    expected_bare.update_colors("#2e3440", "#3b4252", "#434c5e", "#eceff4", "#88c0d0");
    assert!(e == expected_bare);
}

#[test]
fn to_json_holds_each_set_field_under_its_key() {
    let v = full_document().to_json();
    let o = v.as_object().unwrap();
    assert_eq!(o.len(), 32);
    assert_eq!(v["background"], "#101010");
    assert_eq!(v["primary"], "#202020");
    assert_eq!(v["secondary"], "#303030");
    assert_eq!(v["text"], "#f0f0f0");
    assert_eq!(v["accent"], "tomato");
    assert_eq!(v["lastWallpaper"], "/home/u/Pictures/Wallpapers/a \"b\".png");
    assert_eq!(v["colorPreset"], "Nord");
    assert_eq!(v["sidebarPosition"], "right");
    assert_eq!(v["notificationsEnabled"], false);
    assert_eq!(v["notificationSoundsEnabled"], true);
    assert_eq!(v["sidebarVisible"], false);
    assert_eq!(v["rounding"], "sharp");
    assert_eq!(v["showHiddenFiles"], true);
    assert_eq!(v["uiScale"], 125);
    assert_eq!(v["dashboardTileLeft"], "network");
    assert_eq!(v["sidepanelContent"], "github");
    assert_eq!(v["githubUsername"], "octo\ncat");
    assert_eq!(v["dashboardPosition"], "left");
    assert_eq!(v["scriptsAutostartBattery"], true);
    assert_eq!(v["scriptsAutostartScreensaver"], true);
    assert_eq!(v["batteryThreshold"], 255);
    assert_eq!(v["screensaverTimeout"], 4294967295u64);
    assert_eq!(v["dashboardResource1"], "gpu");
    assert_eq!(v["dashboardResource2"], "disk");
    assert_eq!(v["scriptsAutostartAutofloat"], true);
    assert_eq!(v["autofloatWidth"], 0);
    assert_eq!(v["autofloatHeight"], 1);
    assert_eq!(v["scriptsUseLockscreen"], true);
    assert_eq!(v["notificationPosition"], "top-left");
    assert_eq!(v["notificationRounding"], "pill");
    assert_eq!(v["quickshellBorderRadius"], 8);
    assert_eq!(v["notificationSound"], "żółć.oga");
}

#[test]
fn to_json_leaves_absent_preferences_out() {
    let v = bare_document().to_json();
    let o = v.as_object().unwrap();
    assert_eq!(o.len(), 5);
    assert!(o.get("uiScale").is_none());
    assert!(o.get("lastWallpaper").is_none());
    assert!(!o.values().any(|m| m.is_null()));
}

#[test]
fn to_json_text_is_pretty_printed_json() {
    let text = bare_document().to_json_text().unwrap();
    assert_eq!(
        text,
        "{\n  \"accent\": \"e\",\n  \"background\": \"a\",\n  \"primary\": \"b\",\n  \"secondary\": \"c\",\n  \"text\": \"d\"\n}"
    );
    let mut d = bare_document();
    d.set_ui_scale(75);
    d.set_sidebar_visible(true);
    assert_eq!(
        d.to_json_text().unwrap(),
        "{\n  \"accent\": \"e\",\n  \"background\": \"a\",\n  \"primary\": \"b\",\n  \"secondary\": \"c\",\n  \"sidebarVisible\": true,\n  \"text\": \"d\",\n  \"uiScale\": 75\n}"
    );
}

#[test]
fn written_maps_the_writer_s_outcome() {
    assert_eq!(ColorConfig::written(Ok("{}".to_string())), Ok("{}".to_string()));
    let failure = serde_json::from_str::<serde_json::Value>("{").unwrap_err();
    assert_eq!(ColorConfig::written(Err(failure)), Err(ConfigError::Write));
}

#[test]
fn save_then_load_gives_the_same_document() {
    for d in [full_document(), bare_document(), ColorConfig::default()] {
        let text = d.to_json_text().unwrap();
        let back = ColorConfig::try_load(Some(&text)).unwrap();
        assert!(back == d);
        assert!(ColorConfig::load(Some(&text)) == d);
        assert!(ColorConfig::from_json(&d.to_json()).unwrap() == d);
    }
}

#[test]
fn save_then_load_adds_no_defaults() {
    let text = bare_document().to_json_text().unwrap();
    let back = ColorConfig::load(Some(&text));
    assert_eq!(back.ui_scale, None);
    assert_eq!(back.rounding, None);
    assert_eq!(back.notification_sound, None);
    assert_eq!(back.sidebar_visible, None);
}

#[test]
fn save_then_load_keeps_an_empty_text_apart_from_an_absent_one() {
    let mut d = bare_document();
    d.github_username = Some(String::new());
    d.last_wallpaper = Some(String::new());
    let back = ColorConfig::load(Some(&d.to_json_text().unwrap()));
    assert_eq!(back.github_username.as_deref(), Some(""));
    assert_eq!(back.last_wallpaper.as_deref(), Some(""));
    assert!(back == d);
}

#[test]
fn two_panels_that_reload_keep_both_changes() {
    let start = ColorConfig::default().to_json_text().unwrap();

    let mut a = ColorConfig::load(Some(&start));
    a.set_rounding("sharp");
    let after_a = a.to_json_text().unwrap();

    let mut b = ColorConfig::load(Some(&after_a));
    b.set_ui_scale(125);
    let after_b = b.to_json_text().unwrap();

    let last = ColorConfig::load(Some(&after_b));
    assert_eq!(last.rounding.as_deref(), Some("sharp"));
    assert_eq!(last.ui_scale, Some(125));
    let mut expected = ColorConfig::default();
    expected.set_rounding("sharp");
    expected.set_ui_scale(125);
    assert!(last == expected);
}

#[test]
fn a_panel_that_does_not_reload_loses_the_other_change() {
    let start = ColorConfig::default().to_json_text().unwrap();
    let mut stale = ColorConfig::load(Some(&start));

    let mut a = ColorConfig::load(Some(&start));
    a.set_rounding("sharp");
    let _after_a = a.to_json_text().unwrap();

    stale.set_ui_scale(125);
    let after_b = stale.to_json_text().unwrap();
    let last = ColorConfig::load(Some(&after_b));
    assert_eq!(last.ui_scale, Some(125));
    assert_eq!(last.rounding.as_deref(), Some("rounded"));
}
