use ups_monitor::connection::{
    device_read_timeout_ms, first_read_timeout_ms, is_ups_device, read_timeout_ms, refresh_due,
    select_ups_devices, sleep_ms, DeviceIds, ReadResult, TickPlan,
};
use ups_monitor::history::LogEntry;
use ups_monitor::monitor::{AppState, Effect, UpsInfo};
use ups_monitor::settings::AppSettings;
use ups_monitor::shutdown::ShutdownReason;

const T0: u64 = 1_700_000_000_000;

fn fresh() -> AppState {
    let mut s = AppSettings::default();
    s.save_history = false;
    AppState::new(s, Vec::new(), Vec::new())
}

fn frame(line: &str) -> Vec<u8> {
    let mut raw = vec![0u8];
    raw.extend_from_slice(line.as_bytes());
    raw.push(0x0D);
    raw
}

#[test]
fn ups_is_recognised_by_its_ids() {
    assert!(is_ups_device(0x0925, 0x1234));
    assert!(!is_ups_device(0x0925, 0x1235));
    assert!(!is_ups_device(0x0926, 0x1234));
    let devices = vec![
        DeviceIds { vendor_id: 1, product_id: 2 },
        DeviceIds { vendor_id: 0x0925, product_id: 0x1234 },
        DeviceIds { vendor_id: 0x1234, product_id: 0x0925 },
        DeviceIds { vendor_id: 0x0925, product_id: 0x1234 },
    ];
    assert_eq!(select_ups_devices(&devices), vec![1, 3]);
    assert_eq!(select_ups_devices(&Vec::new()), Vec::<usize>::new());
}

#[test]
fn connect_is_told_once() {
    let mut state = fresh();
    let mut effects = Vec::new();
    state.mark_connected(T0, &mut effects);
    assert_eq!(effects, vec![Effect::EventLogged(LogEntry::UpsConnected), Effect::EmitConnected]);
    assert!(state.core.is_connected);
    effects.clear();
    state.mark_connected(T0 + 1, &mut effects);
    assert!(effects.is_empty());
    assert_eq!(state.events.len(), 1);
    assert_eq!(state.events[0].classification, "General Event");
}

#[test]
fn first_disconnect_without_connection_is_told_but_not_logged() {
    let mut state = fresh();
    let mut effects = Vec::new();
    state.mark_disconnected(T0, &mut effects);
    assert_eq!(effects, vec![Effect::EmitDisconnected]);
    assert!(state.events.is_empty());
    assert!(state.core.has_emitted_disconnected);
    assert_eq!(state.core.sound.generation, 1);
    effects.clear();
    state.mark_disconnected(T0 + 1, &mut effects);
    assert!(effects.is_empty());
    assert_eq!(state.core.sound.generation, 1);
}

#[test]
fn disconnect_resets_the_safety_state() {
    let mut state = fresh();
    let mut effects = Vec::new();
    state.mark_connected(T0, &mut effects);
    state.read_one_packet(
        ReadResult::Data(&frame("(0.0 229.0 230.1 034 50.0 22.0 25.0 10000000")),
        T0,
        true,
        &mut effects,
    );
    assert!(state.core.latches.is_on_battery);
    assert!(state.core.scheduler.pending.is_some());
    assert!(state.last_status.is_some());
    let generation = state.core.sound.generation;
    effects.clear();
    state.mark_disconnected(T0 + 10, &mut effects);
    assert_eq!(
        effects,
        vec![
            Effect::EmitShutdownCancelled,
            Effect::EventLogged(LogEntry::UpsDisconnected),
            Effect::EmitDisconnected,
        ]
    );
    assert!(!state.core.is_connected);
    assert!(!state.core.latches.is_on_battery);
    assert_eq!(state.core.battery_start_ms, None);
    assert_eq!(state.core.scheduler.pending, None);
    assert_eq!(state.last_status, None);
    assert_eq!(state.core.sound.generation, generation + 1);
    assert_eq!(state.events[0].name, "UPS disconnected");
}

#[test]
fn same_error_is_reported_once() {
    let mut state = fresh();
    let mut effects = Vec::new();
    assert!(state.emit_error_once("HID read error: x".to_string(), &mut effects));
    assert!(!state.emit_error_once("HID read error: x".to_string(), &mut effects));
    assert_eq!(effects, vec![Effect::EmitError]);
    assert_eq!(state.last_error, Some("HID read error: x".to_string()));
    assert!(state.emit_error_once("HID read error: y".to_string(), &mut effects));
    assert_eq!(state.last_error, Some("HID read error: y".to_string()));
    state.clear_last_error();
    assert_eq!(state.last_error, None);
    assert!(state.emit_error_once("HID read error: y".to_string(), &mut effects));
    assert_eq!(effects, vec![Effect::EmitError, Effect::EmitError, Effect::EmitError]);
}

#[test]
fn device_names_have_defaults() {
    let mut state = fresh();
    state.note_device(None, None);
    assert_eq!(
        state.device_info,
        Some(UpsInfo {
            manufacturer: "RICHCOMM".to_string(),
            product: "UPS USB Mon".to_string(),
            vendor_id: "0925".to_string(),
            product_id: "1234".to_string(),
            firmware: None,
        })
    );
    state.note_firmware("V3.8".to_string());
    state.note_device(Some("ACME"), Some("PowerBox"));
    assert_eq!(
        state.device_info,
        Some(UpsInfo {
            manufacturer: "ACME".to_string(),
            product: "PowerBox".to_string(),
            vendor_id: "0925".to_string(),
            product_id: "1234".to_string(),
            firmware: Some("V3.8".to_string()),
        })
    );
}

#[test]
fn firmware_without_device_is_dropped() {
    let mut state = fresh();
    state.note_firmware("V1".to_string());
    assert_eq!(state.device_info, None);
}

#[test]
fn version_packet_sets_the_firmware() {
    let mut state = fresh();
    state.note_device(None, None);
    let mut effects = Vec::new();
    assert!(state.read_one_packet(ReadResult::Data(&frame("#V3.8")), T0, true, &mut effects));
    assert!(effects.is_empty());
    assert_eq!(state.device_info.unwrap().firmware, Some("V3.8".to_string()));
}

#[test]
fn status_packet_is_handled() {
    let mut state = fresh();
    let mut effects = Vec::new();
    let raw = frame("(230.5 229.0 230.1 034 50.0 27.3 25.0 00001001");
    assert!(state.read_one_packet(ReadResult::Data(&raw), T0, true, &mut effects));
    assert_eq!(effects, vec![Effect::EmitUpsData]);
    let last = state.last_status.unwrap();
    assert_eq!(last.input_voltage, 230_500);
    assert_eq!(last.timestamp_ms, T0);
}

#[test]
fn other_reads_change_nothing() {
    let mut state = fresh();
    let before = state.clone();
    let mut effects = Vec::new();
    assert!(state.read_one_packet(ReadResult::Empty, T0, true, &mut effects));
    assert!(state.read_one_packet(ReadResult::Data(b"\x00noise\r"), T0, true, &mut effects));
    assert!(state.read_one_packet(ReadResult::Data(b"\x00(1 2 3\r"), T0, true, &mut effects));
    assert!(effects.is_empty());
    assert_eq!(state, before);
}

#[test]
fn failed_read_disconnects() {
    let mut state = fresh();
    let mut effects = Vec::new();
    state.mark_connected(T0, &mut effects);
    effects.clear();
    let keep = state.read_one_packet(
        ReadResult::Failed("HID read error: gone".to_string()),
        T0 + 5,
        true,
        &mut effects,
    );
    assert!(!keep);
    assert_eq!(
        effects,
        vec![
            Effect::EmitError,
            Effect::EventLogged(LogEntry::UpsDisconnected),
            Effect::EmitDisconnected,
        ]
    );
    assert_eq!(state.last_error, Some("HID read error: gone".to_string()));
    assert!(!state.core.is_connected);
}

#[test]
fn scan_without_device_disconnects() {
    let mut state = fresh();
    let mut effects = Vec::new();
    state.device_ready(T0, &mut effects);
    state.emit_error_once("Cannot open UPS HID device: busy".to_string(), &mut effects);
    effects.clear();
    state.no_device_found(T0 + 1, &mut effects);
    assert_eq!(
        effects,
        vec![Effect::EventLogged(LogEntry::UpsDisconnected), Effect::EmitDisconnected]
    );
    assert_eq!(state.last_error, None);
}

#[test]
fn device_layer_failure_disconnects_then_reports() {
    let mut state = fresh();
    let mut effects = Vec::new();
    state.schedule_shutdown_after_minutes(T0, 3, ShutdownReason::ManualTrigger, &mut effects);
    effects.clear();
    state.device_layer_failed("HID init error: no".to_string(), T0, &mut effects);
    assert_eq!(
        effects,
        vec![Effect::EmitShutdownCancelled, Effect::EmitDisconnected, Effect::EmitError]
    );
    effects.clear();
    state.device_layer_failed("HID init error: no".to_string(), T0 + 1500, &mut effects);
    assert!(effects.is_empty());
}

#[test]
fn read_timeouts() {
    assert_eq!(read_timeout_ms(false, false, 1000), 90);
    assert_eq!(read_timeout_ms(false, true, 1000), 90);
    assert_eq!(read_timeout_ms(true, false, 1000), 120);
    assert_eq!(read_timeout_ms(true, true, 1000), 600);
    assert_eq!(read_timeout_ms(true, true, 550), 550);
    assert_eq!(read_timeout_ms(true, true, 100), 500);
    assert_eq!(read_timeout_ms(true, true, u64::MAX), 600);
    assert_eq!(first_read_timeout_ms(600), 150);
    assert_eq!(first_read_timeout_ms(120), 120);
    assert_eq!(device_read_timeout_ms(90), 100);
    assert_eq!(device_read_timeout_ms(600), 600);
    assert_eq!(device_read_timeout_ms(-4), 100);
}

#[test]
fn refresh_cadence() {
    assert!(refresh_due(2_000, 0, true));
    assert!(!refresh_due(1_999, 0, true));
    assert!(refresh_due(350, 0, false));
    assert!(!refresh_due(349, 0, false));
    assert!(!refresh_due(5, 1_000, false));
    assert!(refresh_due(T0, 0, true));
}

#[test]
fn sleep_cadence() {
    assert_eq!(sleep_ms(false, true, 1000, 600), 150);
    assert_eq!(sleep_ms(true, false, 1000, 120), 30);
    assert_eq!(sleep_ms(true, true, 1000, 600), 280);
    assert_eq!(sleep_ms(true, true, 700, 600), 100);
    assert_eq!(sleep_ms(true, true, 600, 600), 30);
    assert_eq!(sleep_ms(true, true, 0, 600), 30);
    assert_eq!(sleep_ms(true, true, 520, -1), 280);
    assert_eq!(sleep_ms(true, true, 10_000, 600), 280);
}

#[test]
fn tick_plan() {
    let mut state = fresh();
    assert_eq!(
        state.plan_tick(false, 0, T0),
        TickPlan { has_recent_status: false, read_timeout_ms: 90, refresh_devices: true }
    );
    let plan = state.plan_tick(true, T0, T0 + 100);
    assert_eq!(
        plan,
        TickPlan { has_recent_status: false, read_timeout_ms: 120, refresh_devices: false }
    );
    assert_eq!(state.tick_pause(plan), 150);
    let mut effects = Vec::new();
    state.device_ready(T0, &mut effects);
    assert_eq!(state.tick_pause(plan), 30);
    let raw = frame("(230.5 229.0 230.1 034 50.0 27.3 25.0 00001001");
    state.read_one_packet(ReadResult::Data(&raw), T0, true, &mut effects);
    let next = state.plan_tick(true, T0, T0 + 2_000);
    assert_eq!(
        next,
        TickPlan { has_recent_status: true, read_timeout_ms: 600, refresh_devices: true }
    );
    assert_eq!(state.tick_pause(next), 280);
}

#[test]
fn packet_is_decoded_and_handled() {
    let mut state = fresh();
    state.note_device(None, None);
    let mut effects = Vec::new();
    state.handle_packet(&frame("V9"), T0, true, &mut effects);
    assert_eq!(state.device_info.as_ref().unwrap().firmware, Some("V9".to_string()));
    state.handle_packet(&frame("(0 0 0 0 0 0 0 1"), T0, true, &mut effects);
    assert!(state.core.latches.is_on_battery);
    assert!(effects.contains(&Effect::EmitUpsData));
}
