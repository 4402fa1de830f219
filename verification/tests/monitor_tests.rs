use fnq_visual::monitor::{
    is_profile_change, profile_from_contents, FsEventKind, KernelMonitor, PowerMode, SignalDebouncer,
    SETTLE_MS,
};

#[test]
fn from_str_reads_the_three_profile_names() {
    assert_eq!(PowerMode::from_str("performance"), PowerMode::Performance);
    assert_eq!(PowerMode::from_str("balanced"), PowerMode::Balanced);
    assert_eq!(PowerMode::from_str("low-power"), PowerMode::LowPower);
}

#[test]
fn from_str_ignores_surrounding_white_space() {
    assert_eq!(PowerMode::from_str("performance\n"), PowerMode::Performance);
    assert_eq!(PowerMode::from_str("  balanced \t\r\n"), PowerMode::Balanced);
    assert_eq!(PowerMode::from_str("\u{3000}low-power\u{a0}"), PowerMode::LowPower);
}

#[test]
fn from_str_gives_unknown_for_anything_else() {
    assert_eq!(PowerMode::from_str(""), PowerMode::Unknown);
    assert_eq!(PowerMode::from_str("   \n"), PowerMode::Unknown);
    assert_eq!(PowerMode::from_str("Performance"), PowerMode::Unknown);
    assert_eq!(PowerMode::from_str("quiet"), PowerMode::Unknown);
    assert_eq!(PowerMode::from_str("low power"), PowerMode::Unknown);
    assert_eq!(PowerMode::from_str("balanced performance"), PowerMode::Unknown);
    assert_eq!(PowerMode::from_str("performancex"), PowerMode::Unknown);
}

#[test]
fn from_str_agrees_with_std_trim() {
    for text in ["\u{85}balanced\u{2028}", "\u{1680} performance \u{205f}", "x balanced", "balanced\u{200b}"] {
        let expected = match text.trim() {
            "performance" => PowerMode::Performance,
            "balanced" => PowerMode::Balanced,
            "low-power" => PowerMode::LowPower,
            _ => PowerMode::Unknown,
        };
        assert_eq!(PowerMode::from_str(text), expected);
    }
}

#[test]
fn profile_from_contents_reads_or_falls_back() {
    assert_eq!(profile_from_contents(Some("balanced\n")), PowerMode::Balanced);
    assert_eq!(profile_from_contents(Some("garbage")), PowerMode::Unknown);
    assert_eq!(profile_from_contents(None), PowerMode::Unknown);
}

#[test]
fn only_modifications_call_for_a_read() {
    assert!(is_profile_change(Some(FsEventKind::Modify)));
    assert!(!is_profile_change(Some(FsEventKind::Access)));
    assert!(!is_profile_change(Some(FsEventKind::Create)));
    assert!(!is_profile_change(Some(FsEventKind::Remove)));
    assert!(!is_profile_change(Some(FsEventKind::Any)));
    assert!(!is_profile_change(Some(FsEventKind::Other)));
    assert!(!is_profile_change(None));
}

#[test]
fn monitor_starts_with_unknown() {
    let m = KernelMonitor::new();
    assert_eq!(m.last_mode(), PowerMode::Unknown);
}

#[test]
fn monitor_publishes_changes_once() {
    let mut m = KernelMonitor::new();
    assert_eq!(m.on_reading(PowerMode::Balanced), Some(PowerMode::Balanced));
    assert!(m.on_delivery(true));
    assert_eq!(m.last_mode(), PowerMode::Balanced);
    assert_eq!(m.on_reading(PowerMode::Balanced), None);
    assert_eq!(m.on_reading(PowerMode::Performance), Some(PowerMode::Performance));
    assert!(m.on_delivery(true));
    assert_eq!(m.last_mode(), PowerMode::Performance);
}

#[test]
fn monitor_never_publishes_unknown() {
    let mut m = KernelMonitor::new();
    assert_eq!(m.on_reading(PowerMode::Unknown), None);
    assert_eq!(m.on_reading(PowerMode::LowPower), Some(PowerMode::LowPower));
    assert!(m.on_delivery(true));
    assert_eq!(m.on_reading(PowerMode::Unknown), None);
    assert_eq!(m.last_mode(), PowerMode::LowPower);
}

#[test]
fn monitor_stops_when_delivery_fails() {
    let mut m = KernelMonitor::new();
    assert_eq!(m.on_reading(PowerMode::Performance), Some(PowerMode::Performance));
    assert!(!m.on_delivery(false));
    assert_eq!(m.last_mode(), PowerMode::Unknown);
}

#[test]
fn monitor_delivery_without_pending_mode_keeps_last() {
    let mut m = KernelMonitor::new();
    assert_eq!(m.on_reading(PowerMode::Unknown), None);
    assert!(m.on_delivery(true));
    assert_eq!(m.last_mode(), PowerMode::Unknown);
}

#[test]
fn a_burst_of_notifications_gives_one_read() {
    let mut d = SignalDebouncer::new();
    assert!(!d.on_settled());
    assert_eq!(d.on_notification(), Some(SETTLE_MS));
    assert_eq!(SETTLE_MS, 150);
    assert_eq!(d.on_notification(), None);
    assert_eq!(d.on_notification(), None);
    assert!(d.on_settled());
    assert!(!d.on_settled());
    assert_eq!(d.on_notification(), Some(150));
    assert!(d.on_settled());
}
