use fuse::config::ColorConfig;
use fuse::scale::scale_factor;

#[test]
fn scale_factor_maps_the_three_scales() {
    assert_eq!(scale_factor(75), "0.75");
    assert_eq!(scale_factor(100), "1.0");
    assert_eq!(scale_factor(125), "1.25");
}

#[test]
fn scale_factor_of_any_other_value_is_one() {
    for n in 0..=255u8 {
        if n != 75 && n != 125 {
            assert_eq!(scale_factor(n), "1.0", "scale {}", n);
        }
    }
}

#[test]
fn scale_variable_is_set_from_a_loaded_document() {
    let mut d = ColorConfig::default();
    let e = ColorConfig::apply_scale_env_from_config(&d).unwrap();
    assert_eq!(e.name, "GTK_SCALE_FACTOR");
    assert_eq!(e.value, "1.0");
    d.set_ui_scale(75);
    assert_eq!(ColorConfig::apply_scale_env_from_config(&d).unwrap().value, "0.75");
    d.set_ui_scale(125);
    assert_eq!(ColorConfig::apply_scale_env_from_config(&d).unwrap().value, "1.25");
    d.set_ui_scale(150);
    let e = ColorConfig::apply_scale_env_from_config(&d).unwrap();
    assert_eq!(e.name, "GTK_SCALE_FACTOR");
    assert_eq!(e.value, "1.0");
    d.ui_scale = None;
    assert!(ColorConfig::apply_scale_env_from_config(&d).is_none());
}

#[test]
fn scale_variable_is_set_from_the_file() {
    let colours = r##""background":"#1","primary":"#2","secondary":"#3","text":"#4","accent":"#5""##;
    let with_scale = format!("{{{},\"uiScale\":125}}", colours);
    let e = ColorConfig::apply_scale_env_to_process(Some(&with_scale)).unwrap();
    assert_eq!(e.name, "GTK_SCALE_FACTOR");
    assert_eq!(e.value, "1.25");
    let without_scale = format!("{{{}}}", colours);
    assert!(ColorConfig::apply_scale_env_to_process(Some(&without_scale)).is_none());
    let e = ColorConfig::apply_scale_env_to_process(None).unwrap();
    assert_eq!(e.value, "1.0");
    let e = ColorConfig::apply_scale_env_to_process(Some("{corrupt")).unwrap();
    assert_eq!(e.value, "1.0");
}
