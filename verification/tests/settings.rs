use ups_monitor::settings::{clamp_u64, set_custom_sounds_path, update_history_interval, AppSettings};

#[test]
fn clamp_keeps_values_in_range() {
    assert_eq!(clamp_u64(0, 5, 50, 20), 20);
    assert_eq!(clamp_u64(1, 5, 50, 20), 5);
    assert_eq!(clamp_u64(5, 5, 50, 20), 5);
    assert_eq!(clamp_u64(33, 5, 50, 20), 33);
    assert_eq!(clamp_u64(50, 5, 50, 20), 50);
    assert_eq!(clamp_u64(51, 5, 50, 20), 50);
    assert_eq!(clamp_u64(u64::MAX, 5, 50, 20), 50);
    assert_eq!(clamp_u64(7, 10, 3, 1), 3);
}

#[test]
fn default_settings_are_as_documented() {
    let s = AppSettings::default();
    assert!(!s.start_with_windows);
    assert!(!s.start_minimized);
    assert!(!s.monitor_only_mode);
    assert_eq!(s.polling_interval, 1000);
    assert!(s.enable_notifications);
    assert_eq!(s.alerts.ac_fault.sound_repeats, 3);
    assert_eq!(s.alerts.battery_low.sound_repeats, 5);
    assert_eq!(s.alerts.battery_critical.sound_repeats, 10);
    assert!(s.alerts.ac_fault.play_sound && s.alerts.ac_fault.show_popup);
    assert!(s.shutdown_pc.on_ac_fault.enabled);
    assert_eq!(s.shutdown_pc.on_ac_fault.delay_minutes, 18);
    assert!(!s.shutdown_pc.on_battery_low.enabled);
    assert!(s.shutdown_pc.on_battery_critical.enabled);
    assert!(s.shutdown_pc.auto_save_files);
    assert_eq!(s.shutdown_pc.shutdown_command, "");
    assert_eq!(s.shutdown_pc.action, "shutdown");
    assert!(s.ups_control.shutdown_ups_after_pc);
    assert_eq!(s.ups_control.ups_shutdown_delay, 2);
    assert!(s.save_history);
    assert_eq!(s.history_interval, 300);
    assert_eq!(s.low_battery_threshold, 20);
    assert_eq!(s.critical_battery_threshold, 10);
    assert_eq!(s.custom_sounds_path, None);
}

#[test]
fn default_settings_are_normalized() {
    assert_eq!(AppSettings::default().normalize(), AppSettings::default());
}

#[test]
fn normalize_brings_numbers_into_range() {
    let mut s = AppSettings::default();
    s.polling_interval = 10;
    s.history_interval = 100_000;
    s.low_battery_threshold = 8;
    s.critical_battery_threshold = 25;
    s.alerts.ac_fault.sound_repeats = 0;
    s.alerts.battery_low.sound_repeats = 99;
    s.alerts.battery_critical.sound_repeats = 0;
    s.shutdown_pc.on_ac_fault.delay_minutes = 500;
    s.ups_control.ups_shutdown_delay = 0;
    s.shutdown_pc.action = "reboot".to_string();
    s.shutdown_pc.shutdown_command = "echo hi".to_string();
    let n = s.normalize();
    assert_eq!(n.polling_interval, 500);
    assert_eq!(n.history_interval, 3600);
    assert_eq!(n.low_battery_threshold, 8);
    assert_eq!(n.critical_battery_threshold, 8);
    assert_eq!(n.alerts.ac_fault.sound_repeats, 3);
    assert_eq!(n.alerts.battery_low.sound_repeats, 30);
    assert_eq!(n.alerts.battery_critical.sound_repeats, 10);
    assert_eq!(n.shutdown_pc.on_ac_fault.delay_minutes, 60);
    assert_eq!(n.ups_control.ups_shutdown_delay, 2);
    assert_eq!(n.shutdown_pc.action, "shutdown");
    assert_eq!(n.shutdown_pc.shutdown_command, "echo hi");
}

#[test]
fn normalize_keeps_sleep() {
    let mut s = AppSettings::default();
    s.shutdown_pc.action = "sleep".to_string();
    assert_eq!(s.normalize().shutdown_pc.action, "sleep");
}

#[test]
fn normalize_twice_is_normalize_once() {
    let mut s = AppSettings::default();
    s.monitor_only_mode = true;
    s.polling_interval = 3;
    s.critical_battery_threshold = 49;
    s.low_battery_threshold = 6;
    let once = s.normalize();
    let twice = once.clone().normalize();
    assert_eq!(once, twice);
}

#[test]
fn monitor_only_switches_side_effects_off() {
    let mut s = AppSettings::default();
    s.monitor_only_mode = true;
    s.shutdown_pc.shutdown_command = "poweroff".to_string();
    s.custom_sounds_path = Some("/sounds".to_string());
    let n = s.normalize();
    assert!(n.monitor_only_mode);
    assert!(!n.enable_notifications);
    assert!(!n.alerts.ac_fault.play_sound && !n.alerts.ac_fault.show_popup);
    assert!(!n.alerts.battery_low.play_sound && !n.alerts.battery_low.show_popup);
    assert!(!n.alerts.battery_critical.play_sound && !n.alerts.battery_critical.show_popup);
    assert!(!n.shutdown_pc.on_ac_fault.enabled);
    assert!(!n.shutdown_pc.on_battery_low.enabled);
    assert!(!n.shutdown_pc.on_battery_critical.enabled);
    assert!(!n.shutdown_pc.auto_save_files);
    assert_eq!(n.shutdown_pc.shutdown_command, "");
    assert!(!n.ups_control.shutdown_ups_after_pc);
    assert!(!n.save_history);
    assert_eq!(n.shutdown_pc.on_ac_fault.delay_minutes, 18);
    assert_eq!(n.alerts.ac_fault.sound_repeats, 3);
    assert_eq!(n.custom_sounds_path, Some("/sounds".to_string()));
    assert_eq!(n.polling_interval, 1000);
}

#[test]
fn apply_monitor_only_defaults_alone() {
    let mut s = AppSettings::default();
    s.apply_monitor_only_defaults();
    assert!(!s.monitor_only_mode);
    assert!(!s.enable_notifications);
    assert!(!s.save_history);
    assert!(!s.shutdown_pc.on_battery_critical.enabled);
}

#[test]
fn history_interval_update() {
    let mut s = AppSettings::default();
    update_history_interval(&mut s, 10);
    assert_eq!(s.history_interval, 60);
    update_history_interval(&mut s, 0);
    assert_eq!(s.history_interval, 60);
    update_history_interval(&mut s, 99_999);
    assert_eq!(s.history_interval, 3600);
    update_history_interval(&mut s, 120);
    assert_eq!(s.history_interval, 120);
}

#[test]
fn custom_sounds_path_update() {
    let mut s = AppSettings::default();
    set_custom_sounds_path(&mut s, Some("C:/x".to_string()));
    assert_eq!(s.custom_sounds_path, Some("C:/x".to_string()));
    set_custom_sounds_path(&mut s, None);
    assert_eq!(s.custom_sounds_path, None);
}

#[test]
fn polling_interval_is_held_to_ten_seconds() {
    let mut s = AppSettings::default();
    s.polling_interval = 60_000;
    assert_eq!(s.normalize().polling_interval, 10_000);
    let mut t = AppSettings::default();
    t.polling_interval = 0;
    assert_eq!(t.normalize().polling_interval, 1000);
}
