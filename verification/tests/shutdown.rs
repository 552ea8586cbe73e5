use ups_monitor::settings::AppSettings;
use ups_monitor::shutdown::{
    execute_shutdown_command, select_system_action, ScheduleChange, ScheduledShutdown,
    ShutdownReason, ShutdownScheduler, SystemAction,
};

const NOW: u64 = 1_700_000_000_000;

#[test]
fn earliest_wins_ten_then_two() {
    let mut s = ShutdownScheduler::new();
    let first = s.schedule_shutdown_after_minutes(NOW, 10, ShutdownReason::AcFault);
    assert_eq!(first, Some(ScheduleChange { minutes: 10, deadline_ms: NOW + 600_000 }));
    let second = s.schedule_shutdown_after_minutes(NOW, 2, ShutdownReason::BatteryLow);
    assert_eq!(second, Some(ScheduleChange { minutes: 2, deadline_ms: NOW + 120_000 }));
    assert_eq!(
        s.pending,
        Some(ScheduledShutdown { deadline_ms: NOW + 120_000, reason: ShutdownReason::BatteryLow })
    );
}

#[test]
fn earliest_wins_two_then_ten() {
    let mut s = ShutdownScheduler::new();
    s.schedule_shutdown_after_minutes(NOW, 2, ShutdownReason::BatteryLow);
    let later = s.schedule_shutdown_after_minutes(NOW, 10, ShutdownReason::AcFault);
    assert_eq!(later, None);
    assert_eq!(
        s.pending,
        Some(ScheduledShutdown { deadline_ms: NOW + 120_000, reason: ShutdownReason::BatteryLow })
    );
}

#[test]
fn equal_deadline_does_not_replace() {
    let mut s = ShutdownScheduler::new();
    s.schedule_shutdown_after_minutes(NOW, 5, ShutdownReason::AcFault);
    assert_eq!(s.schedule_shutdown_after_minutes(NOW, 5, ShutdownReason::ManualTrigger), None);
    assert_eq!(s.pending.unwrap().reason, ShutdownReason::AcFault);
}

#[test]
fn delay_is_clamped() {
    let mut s = ShutdownScheduler::new();
    assert_eq!(
        s.schedule_shutdown_after_minutes(NOW, 0, ShutdownReason::ManualTrigger),
        Some(ScheduleChange { minutes: 1, deadline_ms: NOW + 60_000 })
    );
    let mut t = ShutdownScheduler::new();
    assert_eq!(
        t.schedule_shutdown_after_minutes(NOW, 100_000, ShutdownReason::ManualTrigger),
        Some(ScheduleChange { minutes: 120, deadline_ms: NOW + 7_200_000 })
    );
}

#[test]
fn deadline_saturates() {
    let mut s = ShutdownScheduler::new();
    assert_eq!(
        s.schedule_shutdown_after_minutes(u64::MAX - 5, 1, ShutdownReason::ManualTrigger),
        Some(ScheduleChange { minutes: 1, deadline_ms: u64::MAX })
    );
}

#[test]
fn cancel_clears_and_reports() {
    let mut s = ShutdownScheduler::new();
    assert!(!s.cancel_scheduled_shutdown());
    s.schedule_shutdown_after_minutes(NOW, 3, ShutdownReason::AcFault);
    assert!(s.cancel_scheduled_shutdown());
    assert_eq!(s.pending, None);
    assert!(!s.cancel_scheduled_shutdown());
    assert_eq!(s.take_due(u64::MAX), None);
}

#[test]
fn due_is_taken_once() {
    let mut s = ShutdownScheduler::new();
    s.schedule_shutdown_after_minutes(NOW, 1, ShutdownReason::BatteryCritical);
    assert_eq!(s.take_due(NOW + 59_999), None);
    assert!(s.pending.is_some());
    assert_eq!(s.take_due(NOW + 60_000), Some(ShutdownReason::BatteryCritical));
    assert_eq!(s.pending, None);
    assert_eq!(s.take_due(NOW + 60_001), None);
}

#[test]
fn reason_tags() {
    assert_eq!(ShutdownReason::AcFault.as_str(), "ac-fault");
    assert_eq!(ShutdownReason::BatteryLow.as_str(), "battery-low");
    assert_eq!(ShutdownReason::BatteryCritical.as_str(), "battery-critical");
    assert_eq!(ShutdownReason::ManualTrigger.as_str(), "manual-trigger");
    assert_eq!(ShutdownReason::Simulation.as_str(), "simulation");
}

#[test]
fn system_action_from_parts() {
    assert_eq!(
        select_system_action("poweroff -f", "sleep"),
        SystemAction::CustomCommand("poweroff -f".to_string())
    );
    assert_eq!(select_system_action("", "sleep"), SystemAction::Sleep);
    assert_eq!(select_system_action("", "shutdown"), SystemAction::Shutdown);
    assert_eq!(select_system_action("", "anything"), SystemAction::Shutdown);
}

#[test]
fn system_action_trims_the_command() {
    let mut s = AppSettings::default();
    s.shutdown_pc.shutdown_command = "  \t shutdown -h now \n".to_string();
    assert_eq!(
        execute_shutdown_command(&s),
        SystemAction::CustomCommand("shutdown -h now".to_string())
    );
    s.shutdown_pc.shutdown_command = " \u{a0}\t ".to_string();
    assert_eq!(execute_shutdown_command(&s), SystemAction::Shutdown);
    s.shutdown_pc.action = "sleep".to_string();
    assert_eq!(execute_shutdown_command(&s), SystemAction::Sleep);
    s.shutdown_pc.shutdown_command = String::new();
    assert_eq!(execute_shutdown_command(&s), SystemAction::Sleep);
}
