use fnq_visual::config::{config_dir, config_file, settle_config, AppConfig, ConfigLookup, ModeConfig};

fn assert_default(c: &AppConfig) {
    assert_eq!(c.display_duration_ms, 2500);
    assert_eq!(c.window.width, 200);
    assert_eq!(c.window.height, 180);
    assert_eq!(c.window.icon_size, 72);
    assert_eq!(c.window.font_size, 16000);
    assert_eq!(c.window.font_weight, "heavy");
    assert_eq!(c.window.anchor_edge, "bottom");
    assert_eq!(c.window.margin_offset, 100);
    assert_eq!(c.window.background_rgba, "rgba(25, 25, 25, 0.70)");
    assert_eq!(c.quiet.text, "QUIET MODE");
    assert_eq!(c.quiet.icon_path, None);
    assert_eq!(c.balanced.text, "BALANCED MODE");
    assert_eq!(c.balanced.icon_path, None);
    assert_eq!(c.performance.text, "PERFORMANCE MODE");
    assert_eq!(c.performance.icon_path, None);
}

#[test]
fn default_config_matches_the_documented_values() {
    assert_default(&AppConfig::default());
}

#[test]
fn config_paths_are_below_home() {
    let dir = config_dir(Some("/home/user"));
    assert_eq!(dir, "/home/user/.config/fnq-visual");
    assert_eq!(config_file(&dir), "/home/user/.config/fnq-visual/config.toml");
    assert_eq!(config_dir(None), "/.config/fnq-visual");
}

#[test]
fn missing_config_is_replaced_by_the_default() {
    let (c, write) = settle_config(ConfigLookup::Missing);
    assert!(write);
    assert_default(&c);
}

#[test]
fn broken_config_falls_back_to_the_default() {
    let (c, write) = settle_config(ConfigLookup::Found(None));
    assert!(!write);
    assert_default(&c);
}

#[test]
fn valid_config_is_used_as_is() {
    let mut mine = AppConfig::default();
    mine.display_duration_ms = 1000;
    mine.quiet = ModeConfig { text: "SHH".to_string(), icon_path: Some("/tmp/q.png".to_string()) };
    let (c, write) = settle_config(ConfigLookup::Found(Some(mine)));
    assert!(!write);
    assert_eq!(c.display_duration_ms, 1000);
    assert_eq!(c.quiet.text, "SHH");
    assert_eq!(c.quiet.icon_path.as_deref(), Some("/tmp/q.png"));
}
