use ups_monitor::alert::Notice;
use ups_monitor::connection::{DeviceIds, ReadResult, TickPlan};
use ups_monitor::history::LogEntry;
use ups_monitor::monitor::{AppState, Effect};
use ups_monitor::poll::{LoopAction, LoopEvent, LoopPhase, PollLoop};
use ups_monitor::settings::AppSettings;
use ups_monitor::shutdown::ShutdownReason;

const T0: u64 = 1_700_000_000_000;

const UPS: DeviceIds = DeviceIds { vendor_id: 0x0925, product_id: 0x1234 };

const OTHER: DeviceIds = DeviceIds { vendor_id: 0x046d, product_id: 0xc52b };

fn fresh() -> AppState {
    let mut s = AppSettings::default();
    s.save_history = false;
    AppState::new(s, Vec::new(), Vec::new())
}

fn frame(line: &str) -> Vec<u8> {
    let mut raw = vec![0u8];
    raw.extend_from_slice(line.as_bytes());
    raw.push(0x0D);
    raw
}

fn opened() -> LoopEvent<'static> {
    LoopEvent::Opened { manufacturer: Some("ACME".to_string()), product: None }
}

fn open_failed(message: &str) -> LoopEvent<'static> {
    LoopEvent::OpenFailed { manufacturer: None, product: None, message: message.to_string() }
}

#[test]
fn new_loop_is_idle() {
    let l = PollLoop::new();
    assert!(!l.api_ready);
    assert!(!l.device_open);
    assert_eq!(l.phase, LoopPhase::Idle);
    assert_eq!(l.last_device_refresh_ms, 0);
    assert!(l.candidates.is_empty());
}

#[test]
fn first_round_finds_and_reads_the_ups() {
    let mut l = PollLoop::new();
    let mut state = fresh();
    let mut effects = Vec::new();

    assert_eq!(l.step(&mut state, LoopEvent::Resumed, T0, true, &mut effects), LoopAction::CreateApi);
    assert_eq!(
        l.plan,
        TickPlan { has_recent_status: false, read_timeout_ms: 90, refresh_devices: true }
    );
    assert_eq!(
        l.step(&mut state, LoopEvent::ApiCreated, T0 + 1, true, &mut effects),
        LoopAction::RefreshDevices
    );
    assert!(l.api_ready);
    assert_eq!(
        l.step(&mut state, LoopEvent::Refreshed, T0 + 2, true, &mut effects),
        LoopAction::ListDevices
    );
    assert_eq!(l.last_device_refresh_ms, T0);
    assert!(effects.is_empty());

    let listed = LoopEvent::Listed(vec![OTHER, UPS, OTHER, UPS]);
    assert_eq!(l.step(&mut state, listed, T0 + 3, true, &mut effects), LoopAction::Open { index: 1 });
    assert_eq!(l.candidates, vec![1, 3]);
    assert!(effects.is_empty());

    assert_eq!(
        l.step(&mut state, opened(), T0 + 4, true, &mut effects),
        LoopAction::Read { timeout_ms: 100 }
    );
    assert!(l.device_open);
    assert_eq!(effects, vec![Effect::EventLogged(LogEntry::UpsConnected), Effect::EmitConnected]);
    assert_eq!(state.device_info.as_ref().unwrap().manufacturer, "ACME");
    assert_eq!(state.device_info.as_ref().unwrap().product, "UPS USB Mon");
    effects.clear();

    let raw = frame("(230.5 229.0 230.1 034 50.0 27.3 25.0 00001001");
    let read = LoopEvent::Read(ReadResult::Data(&raw));
    assert_eq!(l.step(&mut state, read, T0 + 5, true, &mut effects), LoopAction::Proceed);
    assert_eq!(effects, vec![Effect::EmitUpsData]);
    assert_eq!(l.phase, LoopPhase::RoundEnd);
    effects.clear();

    assert_eq!(
        l.step(&mut state, LoopEvent::Resumed, T0 + 6, true, &mut effects),
        LoopAction::Sleep { ms: 30 }
    );
    assert!(effects.is_empty());
    assert_eq!(l.phase, LoopPhase::Idle);
}

#[test]
fn later_rounds_read_the_open_device() {
    let mut l = PollLoop::new();
    let mut state = fresh();
    let mut effects = Vec::new();
    l.api_ready = true;
    l.device_open = true;
    l.last_device_refresh_ms = T0;
    state.device_ready(T0, &mut effects);
    let raw = frame("(230.5 229.0 230.1 034 50.0 27.3 25.0 00001001");
    state.read_one_packet(ReadResult::Data(&raw), T0, true, &mut effects);
    state.emit_error_once("old".to_string(), &mut effects);
    effects.clear();

    assert_eq!(
        l.step(&mut state, LoopEvent::Resumed, T0 + 1_000, true, &mut effects),
        LoopAction::Read { timeout_ms: 600 }
    );
    assert_eq!(state.last_error, None);
    assert!(effects.is_empty());
    let read = LoopEvent::Read(ReadResult::Empty);
    assert_eq!(l.step(&mut state, read, T0 + 1_600, true, &mut effects), LoopAction::Proceed);
    assert!(l.device_open);
    assert_eq!(
        l.step(&mut state, LoopEvent::Resumed, T0 + 1_600, true, &mut effects),
        LoopAction::Sleep { ms: 280 }
    );

    assert_eq!(
        l.step(&mut state, LoopEvent::Resumed, T0 + 2_000, true, &mut effects),
        LoopAction::RefreshDevices
    );
    assert_eq!(
        l.step(&mut state, LoopEvent::Refreshed, T0 + 2_010, true, &mut effects),
        LoopAction::Read { timeout_ms: 600 }
    );
    assert_eq!(l.last_device_refresh_ms, T0 + 2_000);
}

#[test]
fn failed_read_closes_the_device() {
    let mut l = PollLoop::new();
    let mut state = fresh();
    let mut effects = Vec::new();
    l.api_ready = true;
    l.device_open = true;
    l.last_device_refresh_ms = T0;
    l.step(&mut state, LoopEvent::Resumed, T0 + 10, true, &mut effects);
    effects.clear();
    let read = LoopEvent::Read(ReadResult::Failed("HID read error: gone".to_string()));
    assert_eq!(l.step(&mut state, read, T0 + 20, true, &mut effects), LoopAction::Proceed);
    assert!(!l.device_open);
    assert_eq!(
        effects,
        vec![
            Effect::EmitError,
            Effect::EventLogged(LogEntry::UpsDisconnected),
            Effect::EmitDisconnected,
        ]
    );
    assert_eq!(
        l.step(&mut state, LoopEvent::Resumed, T0 + 20, true, &mut effects),
        LoopAction::Sleep { ms: 150 }
    );
}

#[test]
fn failed_first_read_closes_the_device() {
    let mut l = PollLoop::new();
    let mut state = fresh();
    let mut effects = Vec::new();
    l.api_ready = true;
    l.last_device_refresh_ms = T0;
    l.step(&mut state, LoopEvent::Resumed, T0 + 10, true, &mut effects);
    l.step(&mut state, LoopEvent::Listed(vec![UPS]), T0 + 10, true, &mut effects);
    l.step(&mut state, opened(), T0 + 10, true, &mut effects);
    assert!(l.device_open);
    let read = LoopEvent::Read(ReadResult::Failed("HID read error: x".to_string()));
    assert_eq!(l.step(&mut state, read, T0 + 20, true, &mut effects), LoopAction::Proceed);
    assert!(!l.device_open);
    assert!(!state.core.is_connected);
    assert_eq!(
        l.step(&mut state, LoopEvent::Resumed, T0 + 20, true, &mut effects),
        LoopAction::Sleep { ms: 150 }
    );
    assert_eq!(
        l.step(&mut state, LoopEvent::Resumed, T0 + 400, true, &mut effects),
        LoopAction::RefreshDevices
    );
    assert_eq!(
        l.step(&mut state, LoopEvent::Refreshed, T0 + 400, true, &mut effects),
        LoopAction::ListDevices
    );
}

#[test]
fn device_layer_that_does_not_start_is_retried() {
    let mut l = PollLoop::new();
    let mut state = fresh();
    let mut effects = Vec::new();
    l.step(&mut state, LoopEvent::Resumed, T0, true, &mut effects);
    let failed = LoopEvent::ApiFailed("HID init error: no".to_string());
    assert_eq!(l.step(&mut state, failed, T0, true, &mut effects), LoopAction::Proceed);
    assert_eq!(effects, vec![Effect::EmitDisconnected, Effect::EmitError]);
    assert_eq!(l.phase, LoopPhase::RetryEnd);
    assert!(!l.api_ready);
    effects.clear();
    assert_eq!(
        l.step(&mut state, LoopEvent::Resumed, T0, true, &mut effects),
        LoopAction::Sleep { ms: 1_500 }
    );
    assert_eq!(l.phase, LoopPhase::Idle);
    assert_eq!(
        l.step(&mut state, LoopEvent::Resumed, T0 + 1_500, true, &mut effects),
        LoopAction::CreateApi
    );
    let again = LoopEvent::ApiFailed("HID init error: no".to_string());
    l.step(&mut state, again, T0 + 1_500, true, &mut effects);
    assert!(effects.is_empty());
}

#[test]
fn due_shutdown_is_carried_out_while_the_device_layer_fails() {
    let mut l = PollLoop::new();
    let mut state = fresh();
    let mut effects = Vec::new();
    l.step(&mut state, LoopEvent::Resumed, T0, true, &mut effects);
    l.step(&mut state, LoopEvent::ApiFailed("HID init error: no".to_string()), T0, true, &mut effects);
    l.step(&mut state, LoopEvent::Resumed, T0, true, &mut effects);
    assert!(state.trigger_shutdown(1, T0, &mut effects));
    effects.clear();

    assert_eq!(
        l.step(&mut state, LoopEvent::Resumed, T0 + 60_000, true, &mut effects),
        LoopAction::CreateApi
    );
    let failed = LoopEvent::ApiFailed("HID init error: no".to_string());
    assert_eq!(l.step(&mut state, failed, T0 + 60_000, true, &mut effects), LoopAction::Proceed);
    assert!(effects.is_empty());
    assert!(state.core.scheduler.pending.is_some());
    assert_eq!(
        l.step(&mut state, LoopEvent::Resumed, T0 + 60_000, true, &mut effects),
        LoopAction::Sleep { ms: 1_500 }
    );
    let n = Notice::ShutdownExecution { reason: ShutdownReason::ManualTrigger };
    assert_eq!(
        effects,
        vec![
            Effect::Notify(n),
            Effect::UrgentAlert(n),
            Effect::EventLogged(LogEntry::ShutdownExecution(ShutdownReason::ManualTrigger)),
            Effect::ExecuteShutdown,
        ]
    );
    assert_eq!(state.core.scheduler.pending, None);
}

#[test]
fn failed_scan_drops_layer_and_device() {
    let mut l = PollLoop::new();
    let mut state = fresh();
    let mut effects = Vec::new();
    l.api_ready = true;
    l.device_open = true;
    state.device_ready(T0, &mut effects);
    state.schedule_shutdown_after_minutes(T0, 1, ShutdownReason::ManualTrigger, &mut effects);
    effects.clear();
    assert_eq!(
        l.step(&mut state, LoopEvent::Resumed, T0 + 5_000, true, &mut effects),
        LoopAction::RefreshDevices
    );
    let failed = LoopEvent::RefreshFailed("HID refresh error: bus".to_string());
    assert_eq!(l.step(&mut state, failed, T0 + 5_001, true, &mut effects), LoopAction::Proceed);
    assert!(!l.api_ready);
    assert!(!l.device_open);
    assert_eq!(
        effects,
        vec![
            Effect::EmitShutdownCancelled,
            Effect::EventLogged(LogEntry::UpsDisconnected),
            Effect::EmitDisconnected,
            Effect::EmitError,
        ]
    );
    assert_eq!(l.last_device_refresh_ms, 0);
    effects.clear();
    assert_eq!(
        l.step(&mut state, LoopEvent::Resumed, T0 + 5_002, true, &mut effects),
        LoopAction::Sleep { ms: 1_500 }
    );
    assert!(effects.is_empty());
}

#[test]
fn scan_without_ups_disconnects() {
    let mut l = PollLoop::new();
    let mut state = fresh();
    let mut effects = Vec::new();
    l.api_ready = true;
    l.last_device_refresh_ms = T0;
    assert_eq!(
        l.step(&mut state, LoopEvent::Resumed, T0 + 10, true, &mut effects),
        LoopAction::ListDevices
    );
    let listed = LoopEvent::Listed(vec![OTHER]);
    assert_eq!(l.step(&mut state, listed, T0 + 11, true, &mut effects), LoopAction::Proceed);
    assert_eq!(effects, vec![Effect::EmitDisconnected]);
    assert_eq!(
        l.step(&mut state, LoopEvent::Resumed, T0 + 12, true, &mut effects),
        LoopAction::Sleep { ms: 150 }
    );
}

#[test]
fn candidates_are_tried_in_order() {
    let mut l = PollLoop::new();
    let mut state = fresh();
    let mut effects = Vec::new();
    l.api_ready = true;
    l.last_device_refresh_ms = T0;
    l.step(&mut state, LoopEvent::Resumed, T0 + 10, true, &mut effects);
    let listed = LoopEvent::Listed(vec![UPS, OTHER, UPS]);
    assert_eq!(l.step(&mut state, listed, T0, true, &mut effects), LoopAction::Open { index: 0 });
    assert_eq!(
        l.step(&mut state, open_failed("Cannot open UPS HID device: busy"), T0, true, &mut effects),
        LoopAction::Open { index: 2 }
    );
    assert_eq!(effects, vec![Effect::EmitError]);
    assert_eq!(
        l.step(&mut state, open_failed("Cannot open UPS HID device: busy"), T0, true, &mut effects),
        LoopAction::Proceed
    );
    assert_eq!(effects, vec![Effect::EmitError]);
    assert_eq!(state.device_info.as_ref().unwrap().manufacturer, "RICHCOMM");
    assert!(!state.core.is_connected);
    assert!(!state.core.has_emitted_disconnected);
    assert_eq!(l.phase, LoopPhase::RoundEnd);
}

#[test]
fn due_shutdown_is_carried_out_at_the_end_of_the_round() {
    let mut l = PollLoop::new();
    let mut state = fresh();
    let mut effects = Vec::new();
    l.api_ready = true;
    l.device_open = true;
    l.last_device_refresh_ms = T0 + 58_500;
    state.schedule_shutdown_after_minutes(T0, 1, ShutdownReason::ManualTrigger, &mut effects);
    assert_eq!(
        l.step(&mut state, LoopEvent::Resumed, T0 + 59_000, true, &mut effects),
        LoopAction::Read { timeout_ms: 120 }
    );
    assert_eq!(
        l.step(&mut state, LoopEvent::Read(ReadResult::Empty), T0 + 59_500, true, &mut effects),
        LoopAction::Proceed
    );
    effects.clear();
    assert_eq!(
        l.step(&mut state, LoopEvent::Resumed, T0 + 60_000, true, &mut effects),
        LoopAction::Sleep { ms: 30 }
    );
    assert!(effects.contains(&Effect::ExecuteShutdown));
    assert_eq!(state.core.scheduler.pending, None);
}

#[test]
fn event_out_of_turn_gives_the_round_up() {
    let mut l = PollLoop::new();
    let mut state = fresh();
    let before = state.clone();
    let mut effects = Vec::new();
    assert_eq!(l.step(&mut state, LoopEvent::Refreshed, T0, true, &mut effects), LoopAction::Proceed);
    assert_eq!(l.phase, LoopPhase::RetryEnd);
    assert_eq!(
        l.step(&mut state, LoopEvent::Resumed, T0, true, &mut effects),
        LoopAction::Sleep { ms: 1_500 }
    );
    assert_eq!(l.phase, LoopPhase::Idle);
    l.step(&mut state, LoopEvent::Resumed, T0, true, &mut effects);
    assert_eq!(l.phase, LoopPhase::AwaitApi);
    assert_eq!(
        l.step(&mut state, LoopEvent::Read(ReadResult::Empty), T0, true, &mut effects),
        LoopAction::Proceed
    );
    assert_eq!(l.phase, LoopPhase::RetryEnd);
    assert!(effects.is_empty());
    assert_eq!(state, before);
}
