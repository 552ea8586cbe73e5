use ups_monitor::alert::AlertKind;
use ups_monitor::commands::{
    finish_shutdown_simulation, get_sound_config, set_sound_config, CommandError,
    RepeatConfigPatch, ShutdownSimulation, SoundConfigPatch, SoundRepeatConfig,
};
use ups_monitor::monitor::{AppState, Effect};
use ups_monitor::settings::AppSettings;
use ups_monitor::shutdown::{ScheduleChange, ScheduledShutdown, ShutdownReason};

const T0: u64 = 1_700_000_000_000;

fn fresh(settings: AppSettings) -> AppState {
    AppState::new(settings, Vec::new(), Vec::new())
}

fn monitor_only() -> AppSettings {
    let mut s = AppSettings::default();
    s.monitor_only_mode = true;
    s
}

#[test]
fn manual_shutdown_is_scheduled() {
    let mut state = fresh(AppSettings::default());
    let mut effects = Vec::new();
    assert!(state.trigger_shutdown(7, T0, &mut effects));
    assert_eq!(
        effects,
        vec![Effect::EmitShutdownScheduled(ScheduleChange {
            minutes: 7,
            deadline_ms: T0 + 420_000
        })]
    );
    assert_eq!(
        state.core.scheduler.pending,
        Some(ScheduledShutdown { deadline_ms: T0 + 420_000, reason: ShutdownReason::ManualTrigger })
    );
    effects.clear();
    assert!(state.trigger_shutdown(30, T0, &mut effects));
    assert!(effects.is_empty());
    assert_eq!(state.core.scheduler.pending.unwrap().deadline_ms, T0 + 420_000);
}

#[test]
fn manual_shutdown_is_turned_down_in_monitor_only_mode() {
    let mut state = fresh(monitor_only());
    let mut effects = Vec::new();
    assert!(!state.trigger_shutdown(7, T0, &mut effects));
    assert!(effects.is_empty());
    assert_eq!(state.core.scheduler.pending, None);
}

#[test]
fn cancel_reports_whether_anything_was_pending() {
    let mut state = fresh(AppSettings::default());
    let mut effects = Vec::new();
    assert!(!state.cancel_shutdown(&mut effects));
    state.trigger_shutdown(1, T0, &mut effects);
    effects.clear();
    assert!(state.cancel_shutdown(&mut effects));
    assert_eq!(effects, vec![Effect::EmitShutdownCancelled]);
    assert_eq!(state.core.scheduler.pending, None);
}

#[test]
fn rehearsal_announces_and_leaves_the_schedule_alone() {
    let state = fresh(AppSettings::default());
    let before = state.clone();
    let mut effects = Vec::new();
    let begun = state.simulate_shutdown_flow(None, None, T0, &mut effects);
    assert_eq!(
        begun,
        Ok(ShutdownSimulation {
            scheduled: true,
            minutes: 5,
            deadline_ms: T0 + 300_000,
            auto_cancel_ms: 1_200,
        })
    );
    assert_eq!(
        effects,
        vec![Effect::EmitShutdownScheduled(ScheduleChange {
            minutes: 5,
            deadline_ms: T0 + 300_000
        })]
    );
    assert_eq!(state, before);
    assert_eq!(state.core.scheduler.pending, None);
    effects.clear();
    assert!(finish_shutdown_simulation(begun.unwrap(), &mut effects));
    assert_eq!(effects, vec![Effect::EmitShutdownCancelled]);
}

#[test]
fn rehearsal_numbers_are_held_in_range() {
    let state = fresh(AppSettings::default());
    let mut effects = Vec::new();
    let begun = state.simulate_shutdown_flow(Some(0), Some(5), T0, &mut effects).unwrap();
    assert_eq!(begun.minutes, 1);
    assert_eq!(begun.deadline_ms, T0 + 60_000);
    assert_eq!(begun.auto_cancel_ms, 100);
    let again = state.simulate_shutdown_flow(Some(500), Some(9_000), T0, &mut effects).unwrap();
    assert_eq!(
        again,
        ShutdownSimulation {
            scheduled: true,
            minutes: 120,
            deadline_ms: T0 + 7_200_000,
            auto_cancel_ms: 9_000,
        }
    );
    assert_eq!(
        effects,
        vec![
            Effect::EmitShutdownScheduled(ScheduleChange { minutes: 1, deadline_ms: T0 + 60_000 }),
            Effect::EmitShutdownScheduled(ScheduleChange {
                minutes: 120,
                deadline_ms: T0 + 7_200_000
            }),
        ]
    );
}

#[test]
fn rehearsal_is_announced_beside_an_earlier_shutdown() {
    let mut state = fresh(AppSettings::default());
    let mut effects = Vec::new();
    state.trigger_shutdown(2, T0, &mut effects);
    let pending = state.core.scheduler.pending;
    effects.clear();
    let begun = state.simulate_shutdown_flow(Some(10), None, T0, &mut effects).unwrap();
    assert!(begun.scheduled);
    assert_eq!(
        effects,
        vec![Effect::EmitShutdownScheduled(ScheduleChange {
            minutes: 10,
            deadline_ms: T0 + 600_000
        })]
    );
    assert_eq!(state.core.scheduler.pending, pending);
}

#[test]
fn rehearsal_never_shuts_the_host_down() {
    let mut state = fresh(AppSettings::default());
    let mut effects = Vec::new();
    let begun = state.simulate_shutdown_flow(Some(1), Some(120_000), T0, &mut effects).unwrap();
    effects.clear();
    state.process_pending_shutdown(begun.deadline_ms, false, &mut effects);
    state.process_pending_shutdown(u64::MAX, false, &mut effects);
    assert!(effects.is_empty());
    assert!(finish_shutdown_simulation(begun, &mut effects));
    assert_eq!(effects, vec![Effect::EmitShutdownCancelled]);
}

#[test]
fn rehearsal_drops_no_real_shutdown() {
    let mut state = fresh(AppSettings::default());
    let mut effects = Vec::new();
    state.schedule_shutdown_after_minutes(T0, 18, ShutdownReason::AcFault, &mut effects);
    let begun = state.simulate_shutdown_flow(Some(5), None, T0, &mut effects).unwrap();
    finish_shutdown_simulation(begun, &mut effects);
    assert_eq!(
        state.core.scheduler.pending,
        Some(ScheduledShutdown { deadline_ms: T0 + 18 * 60_000, reason: ShutdownReason::AcFault })
    );
    effects.clear();
    state.process_pending_shutdown(T0 + 18 * 60_000, false, &mut effects);
    assert!(effects.contains(&Effect::ExecuteShutdown));
}

#[test]
fn rehearsal_that_was_not_scheduled_has_nothing_to_cancel() {
    let mut effects = Vec::new();
    let none = ShutdownSimulation {
        scheduled: false,
        minutes: 1,
        deadline_ms: T0,
        auto_cancel_ms: 100,
    };
    assert!(!finish_shutdown_simulation(none, &mut effects));
    assert!(effects.is_empty());
}

#[test]
fn rehearsal_is_turned_down_in_monitor_only_mode() {
    let state = fresh(monitor_only());
    let mut effects = Vec::new();
    assert_eq!(
        state.simulate_shutdown_flow(Some(3), None, T0, &mut effects),
        Err(CommandError::MonitorOnly)
    );
    assert!(effects.is_empty());
    assert_eq!(CommandError::MonitorOnly.message(), "Modo solo monitor activo");
}

#[test]
fn battery_time_counts_whole_seconds() {
    let mut state = fresh(AppSettings::default());
    assert_eq!(state.get_battery_time(T0), None);
    state.core.battery_start_ms = Some(T0);
    assert_eq!(state.get_battery_time(T0), Some(0));
    assert_eq!(state.get_battery_time(T0 + 999), Some(0));
    assert_eq!(state.get_battery_time(T0 + 61_500), Some(61));
    assert_eq!(state.get_battery_time(T0 - 1), Some(0));
}

#[test]
fn sound_on_request() {
    let mut state = fresh(AppSettings::default());
    let mut effects = Vec::new();
    state.play_sound("low", Some(99), &mut effects);
    state.play_sound("whatever", None, &mut effects);
    state.play_sound("ac", Some(0), &mut effects);
    assert_eq!(
        effects,
        vec![
            Effect::PlaySound { kind: AlertKind::BatteryLow, generation: 1, repeats: 30 },
            Effect::PlaySound { kind: AlertKind::BatteryCritical, generation: 2, repeats: 1 },
            Effect::PlaySound { kind: AlertKind::AcFault, generation: 3, repeats: 1 },
        ]
    );
    state.stop_sound();
    assert_eq!(state.core.sound.generation, 4);
}

#[test]
fn new_settings_are_normalized() {
    let mut state = fresh(AppSettings::default());
    let mut effects = Vec::new();
    let mut s = AppSettings::default();
    s.low_battery_threshold = 90;
    s.critical_battery_threshold = 0;
    state.save_settings(s, &mut effects);
    assert_eq!(effects, vec![Effect::SettingsChanged]);
    assert_eq!(state.settings.low_battery_threshold, 50);
    assert_eq!(state.settings.critical_battery_threshold, 10);
    assert_eq!(state.core.sound.generation, 0);
}

#[test]
fn monitor_only_settings_cancel_and_silence() {
    let mut state = fresh(AppSettings::default());
    let mut effects = Vec::new();
    state.trigger_shutdown(10, T0, &mut effects);
    state.play_sound("ac", None, &mut effects);
    effects.clear();
    state.save_settings(monitor_only(), &mut effects);
    assert_eq!(effects, vec![Effect::EmitShutdownCancelled, Effect::SettingsChanged]);
    assert_eq!(state.core.scheduler.pending, None);
    assert_eq!(state.core.sound.generation, 2);
    assert!(state.settings.monitor_only_mode);
    assert!(!state.settings.save_history);
}

#[test]
fn sound_configuration_is_reported() {
    let mut s = AppSettings::default();
    s.custom_sounds_path = Some("D:/sounds".to_string());
    let c = get_sound_config(&s);
    assert_eq!(
        c.repeat_config,
        SoundRepeatConfig { ac_fault: 3, battery_low: 5, critical: 10, default: 3 }
    );
    assert_eq!(c.repeat_delay, 2_500);
    assert_eq!(c.custom_sounds_path, Some("D:/sounds".to_string()));
    assert_eq!(c.sounds.ac_fault, "alert-ac-fault.wav");
    assert_eq!(c.sounds.battery_low, "alert-battery-low.wav");
    assert_eq!(c.sounds.critical, "alert-critical.wav");
}

#[test]
fn sound_configuration_is_patched() {
    let mut s = AppSettings::default();
    set_sound_config(
        &mut s,
        SoundConfigPatch {
            repeat_config: Some(RepeatConfigPatch {
                ac_fault: None,
                battery_low: Some(99),
                critical: Some(0),
                default: Some(7),
            }),
            repeat_delay: Some(1),
            custom_sounds_path: Some(Some("x".to_string())),
        },
    );
    assert_eq!(s.alerts.ac_fault.sound_repeats, 7);
    assert_eq!(s.alerts.battery_low.sound_repeats, 30);
    assert_eq!(s.alerts.battery_critical.sound_repeats, 7);
    assert_eq!(s.custom_sounds_path, Some("x".to_string()));

    set_sound_config(
        &mut s,
        SoundConfigPatch {
            repeat_config: Some(RepeatConfigPatch {
                ac_fault: Some(2),
                battery_low: None,
                critical: None,
                default: Some(0),
            }),
            repeat_delay: None,
            custom_sounds_path: Some(None),
        },
    );
    assert_eq!(s.alerts.ac_fault.sound_repeats, 2);
    assert_eq!(s.alerts.battery_low.sound_repeats, 7);
    assert_eq!(s.alerts.battery_critical.sound_repeats, 7);
    assert_eq!(s.custom_sounds_path, None);

    let before = s.clone();
    set_sound_config(
        &mut s,
        SoundConfigPatch { repeat_config: None, repeat_delay: None, custom_sounds_path: None },
    );
    assert_eq!(s, before);
}
