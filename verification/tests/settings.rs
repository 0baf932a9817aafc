use voutil::settings::{
    security_limits_env_value, ColorTheme, DecoderSettings, HeifLimits, Limit, SecurityLimitSettings,
    SystemMode,
};

#[test]
fn theme_choices() {
    assert_eq!(ColorTheme::from_choice("Light"), ColorTheme::Light);
    assert_eq!(ColorTheme::from_choice("System"), ColorTheme::System);
    assert_eq!(ColorTheme::from_choice("Dark"), ColorTheme::Dark);
    assert_eq!(ColorTheme::from_choice("light"), ColorTheme::Dark);
    assert_eq!(ColorTheme::Light.choice_name(), "Light");
    assert_eq!(ColorTheme::System.choice_name(), "System");
    assert_eq!(ColorTheme::Dark.choice_name(), "Dark");
}

#[test]
fn theme_darkness() {
    assert!(ColorTheme::Dark.is_dark(Some(SystemMode::Light)));
    assert!(!ColorTheme::Light.is_dark(Some(SystemMode::Dark)));
    assert!(ColorTheme::System.is_dark(Some(SystemMode::Dark)));
    assert!(!ColorTheme::System.is_dark(Some(SystemMode::Light)));
    assert!(ColorTheme::System.is_dark(Some(SystemMode::Unspecified)));
    assert!(ColorTheme::System.is_dark(None));
}

#[test]
fn limit_display() {
    assert_eq!(Limit::Default.to_display_string(), "");
    assert_eq!(Limit::NoLimit.to_display_string(), "0");
    assert_eq!(Limit::U64(1234567890123).to_display_string(), "1234567890123");
    assert_eq!(Limit::U32(42).to_display_string(), "42");
    assert_eq!(Limit::U32(0).to_display_string(), "0");
    assert_eq!(Limit::default(), Limit::Default);
}

#[test]
fn limit_settings_follow_widths() {
    let mut l = HeifLimits::default();
    l.image_size_pixels = Limit::U64(1000);
    l.number_of_tiles = Limit::U32(7);
    l.bayer_pattern_pixels = Limit::U32(5);
    l.items = Limit::NoLimit;
    l.memory_block_size = Limit::U64(9);
    l.components = Limit::U64(3);
    let s = l.settings();
    assert_eq!(
        s,
        SecurityLimitSettings {
            max_image_size_pixels: Some(1000),
            max_number_of_tiles: None,
            max_bayer_pattern_pixels: Some(5),
            max_items: Some(0),
            max_color_profile_size: None,
            max_memory_block_size: Some(9),
            max_components: None,
            max_iloc_extents_per_item: None,
            max_size_entity_group: None,
            max_children_per_box: None,
        }
    );
}

#[test]
fn override_from_environment() {
    let mut l = HeifLimits::default();
    assert!(!l.resolve_override_all(None));
    l.override_all = true;
    assert!(l.resolve_override_all(None));
    assert!(l.resolve_override_all(Some("oN")));
    assert!(!l.resolve_override_all(Some("off")));
    assert!(!l.resolve_override_all(Some("")));
    assert_eq!(security_limits_env_value(true), "off");
    assert_eq!(security_limits_env_value(false), "on");
}

#[test]
fn maybe_limits_only_when_not_overridden() {
    let d = DecoderSettings::default();
    assert_eq!(d.heif.maybe_limit_settings(true), None);
    assert_eq!(d.heif.maybe_limit_settings(false), Some(d.heif.settings()));
}
