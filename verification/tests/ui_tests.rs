use fnq_visual::config::{AppConfig, ModeConfig};
use fnq_visual::monitor::PowerMode;
use fnq_visual::ui::{label_markup_for, plan_overlay, window_css, BuiltinIcon, DisplayEpoch, IconSource};
use fnq_visual::window::{is_wayland_session, window_placement, LayerAnchor, ScreenEdge, WindowPlacement};

#[test]
fn markup_for_the_default_font() {
    assert_eq!(
        label_markup_for(16000, "heavy", "QUIET MODE"),
        "<span size='16000' weight='heavy' font_family='sans-serif' color='white'>QUIET MODE</span>"
    );
}

#[test]
fn markup_formats_sizes_like_std() {
    for n in [0, 7, 10, 99, 100, 12345, -1, -905, i32::MAX, i32::MIN] {
        let expected = format!(
            "<span size='{}' weight='bold' font_family='sans-serif' color='white'>x</span>",
            n
        );
        assert_eq!(label_markup_for(n, "bold", "x"), expected);
    }
}

#[test]
fn css_carries_the_background() {
    assert_eq!(
        window_css("rgba(25, 25, 25, 0.70)"),
        "window { background-color: rgba(25, 25, 25, 0.70); border-radius: 24px; }"
    );
}

#[test]
fn mode_config_picks_the_right_section() {
    let c = AppConfig::default();
    assert_eq!(c.mode_config(PowerMode::Performance).unwrap().text, "PERFORMANCE MODE");
    assert_eq!(c.mode_config(PowerMode::Balanced).unwrap().text, "BALANCED MODE");
    assert_eq!(c.mode_config(PowerMode::LowPower).unwrap().text, "QUIET MODE");
    assert!(c.mode_config(PowerMode::Unknown).is_none());
}

#[test]
fn unknown_mode_changes_nothing() {
    let c = AppConfig::default();
    let mut e = DisplayEpoch::new();
    assert!(plan_overlay(&c, &mut e, PowerMode::Unknown).is_none());
    assert!(e.should_hide(0));
}

#[test]
fn overlay_uses_builtin_icons_by_default() {
    let c = AppConfig::default();
    let mut e = DisplayEpoch::new();
    let u = plan_overlay(&c, &mut e, PowerMode::LowPower).unwrap();
    assert_eq!(
        u.markup,
        "<span size='16000' weight='heavy' font_family='sans-serif' color='white'>QUIET MODE</span>"
    );
    assert!(matches!(u.icon, IconSource::Builtin(BuiltinIcon::Quiet)));
    assert_eq!(u.hide_after_ms, 2500);
    assert_eq!(u.token, 1);
    let u = plan_overlay(&c, &mut e, PowerMode::Performance).unwrap();
    assert!(matches!(u.icon, IconSource::Builtin(BuiltinIcon::Performance)));
    let u = plan_overlay(&c, &mut e, PowerMode::Balanced).unwrap();
    assert!(matches!(u.icon, IconSource::Builtin(BuiltinIcon::Balanced)));
    assert_eq!(u.token, 3);
}

#[test]
fn overlay_prefers_a_configured_icon_file() {
    let mut c = AppConfig::default();
    c.balanced = ModeConfig { text: "B".to_string(), icon_path: Some("/icons/b.png".to_string()) };
    c.window.font_size = 9000;
    c.window.font_weight = "bold".to_string();
    c.display_duration_ms = 700;
    let mut e = DisplayEpoch::new();
    let u = plan_overlay(&c, &mut e, PowerMode::Balanced).unwrap();
    assert_eq!(u.markup, "<span size='9000' weight='bold' font_family='sans-serif' color='white'>B</span>");
    match u.icon {
        IconSource::File(p) => assert_eq!(p, "/icons/b.png"),
        other => panic!("unexpected icon {:?}", other),
    }
    assert_eq!(u.hide_after_ms, 700);
}

#[test]
fn only_the_latest_display_hides() {
    let mut e = DisplayEpoch::new();
    let first = e.begin_display();
    assert!(e.should_hide(first));
    let second = e.begin_display();
    assert!(!e.should_hide(first));
    assert!(e.should_hide(second));
}

#[test]
fn wayland_session_in_any_case() {
    assert!(is_wayland_session("wayland"));
    assert!(is_wayland_session("WAYLAND"));
    assert!(is_wayland_session("WayLand"));
    assert!(!is_wayland_session("x11"));
    assert!(!is_wayland_session(""));
    assert!(!is_wayland_session("wayland "));
    assert!(!is_wayland_session("waylandx"));
}

#[test]
fn placement_follows_session_and_edge() {
    assert_eq!(window_placement("wayland", "top", 30), WindowPlacement::Layer(LayerAnchor::Edge(ScreenEdge::Top, 30)));
    assert_eq!(window_placement("Wayland", "bottom", 100), WindowPlacement::Layer(LayerAnchor::Edge(ScreenEdge::Bottom, 100)));
    assert_eq!(window_placement("wayland", "center", 100), WindowPlacement::Layer(LayerAnchor::Centered));
    assert_eq!(window_placement("wayland", "Top", 100), WindowPlacement::Layer(LayerAnchor::Centered));
    assert_eq!(window_placement("x11", "top", 100), WindowPlacement::Plain);
    assert_eq!(window_placement("", "bottom", 100), WindowPlacement::Plain);
}

#[test]
fn epoch_counts_only_known_modes() {
    let c = AppConfig::default();
    let mut e = DisplayEpoch::new();
    let modes = [PowerMode::Balanced, PowerMode::Unknown, PowerMode::LowPower, PowerMode::Unknown, PowerMode::Performance];
    let mut tokens = Vec::new();
    for m in modes {
        if let Some(u) = plan_overlay(&c, &mut e, m) {
            tokens.push(u.token);
        }
    }
    assert_eq!(e.current(), 3);
    assert_eq!(tokens, vec![1, 2, 3]);
    assert!(!e.should_hide(tokens[0]));
    assert!(!e.should_hide(tokens[1]));
    assert!(e.should_hide(tokens[2]));
    assert!(plan_overlay(&c, &mut e, PowerMode::Unknown).is_none());
    assert!(e.should_hide(tokens[2]));
}
