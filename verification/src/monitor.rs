//! The safety-response engine.
//!
//! One owned state, `AppState`, and one function per thing that can happen
//! to it: a reading arrives, the tick comes round, the user asks for
//! something. Each function changes the state and appends to a list of
//! effects what the surroundings have to do (emit an event, show a popup,
//! play a sound, save a file, run the system action). Nothing here waits,
//! reads a clock or touches a device: the time and what the surroundings
//! observed come in as arguments.

use crate::alert::{alert_config_for_kind, config_of, AlertKind, Notice};
use crate::history::{
    data_point_due, data_point_of, data_view, event_of, events_view, log_data_point_if_needed,
    log_event, with_newest, DataHistoryEntry, HistoryEvent, HistoryEventView, LogEntry,
    MAX_DATA_POINTS, MAX_EVENTS,
};
use crate::packet::{UpsData, UpsDataView};
use crate::settings::{is_normalized, normalized, AlertConfig, AppSettings, AppSettingsView};
use crate::shutdown::{
    clamped_delay, deadline_of, is_due, replaces, requested, ScheduleChange, ScheduledShutdown,
    ShutdownReason, ShutdownScheduler, BATTERY_CRITICAL_SHUTDOWN_DELAY_MINUTES,
    BATTERY_LOW_SHUTDOWN_DELAY_MINUTES, MAX_DELAY_MINUTES, MIN_DELAY_MINUTES,
};
use crate::sound::{clamp_repeats, clamped_repeats, next_generation, SoundPlayer};
use vstd::prelude::*;

verus! {

/// The shortest time between two popups that are forced on the user.
pub const POPUP_THROTTLE_MS: u64 = 6_000;

/// What the surroundings have to do, in the order in which it was decided.
#[derive(Clone, Copy, Debug, PartialEq, Eq)]
pub enum Effect {
    /// An event was written to the history: save the events.
    EventLogged(LogEntry),
    /// A reading was written to the history: save the readings.
    DataPointLogged,
    /// Emit `ups-data` with the reading that the state holds.
    EmitUpsData,
    /// Emit `ups-connected`.
    EmitConnected,
    /// Emit `ups-disconnected`.
    EmitDisconnected,
    /// Emit `ups-error` with the message that the state holds.
    EmitError,
    /// Emit `shutdown-scheduled`.
    EmitShutdownScheduled(ScheduleChange),
    /// Emit `shutdown-cancelled`.
    EmitShutdownCancelled,
    /// Show a passive notification.
    Notify(Notice),
    /// Emit `urgent-alert`.
    UrgentAlert(Notice),
    /// Force a popup on the user.
    ForcePopup(Notice),
    /// Start the sound of an alert under this token.
    PlaySound { kind: AlertKind, generation: u64, repeats: u64 },
    /// Carry out the configured system action.
    ExecuteShutdown,
    /// The configuration changed: save it.
    SettingsChanged,
}

// ---------------------------------------------------------------------
// The telemetry state machine
// ---------------------------------------------------------------------
/// What is remembered of the last reading, so that every condition fires
/// once when it begins and not again while it lasts.
#[derive(Clone, Copy, Debug, PartialEq, Eq)]
pub struct Latches {
    pub is_on_battery: bool,
    pub was_battery_low: bool,
    pub was_battery_critical: bool,
}

/// What the state machine reads of a reading.
#[derive(Clone, Copy, Debug, PartialEq, Eq)]
pub struct Reading {
    pub utility_fail: bool,
    pub battery_low: bool,
    pub battery_percent: u64,
}

/// The charge, in percent, at or under which the battery counts as low and
/// as critical.
#[derive(Clone, Copy, Debug, PartialEq, Eq)]
pub struct Thresholds {
    pub low: u64,
    pub critical: u64,
}

/// The edges between one reading and the next.
#[derive(Clone, Copy, Debug, PartialEq, Eq)]
pub struct Transitions {
    pub ac_fault_entered: bool,
    pub ac_fault_cleared: bool,
    pub battery_low_entered: bool,
    pub battery_low_cleared: bool,
    pub battery_critical_entered: bool,
    pub battery_critical_cleared: bool,
}

/// What the state machine reads of a reading.
pub open spec fn reading_of(status: UpsDataView) -> Reading {
    Reading {
        utility_fail: status.status.utility_fail,
        battery_low: status.status.battery_low,
        battery_percent: status.battery_percent,
    }
}

/// The thresholds of a configuration.
pub open spec fn thresholds_of(settings: AppSettingsView) -> Thresholds {
    Thresholds {
        low: settings.low_battery_threshold,
        critical: settings.critical_battery_threshold,
    }
}

/// On battery, and the UPS says the battery is low or the charge is at or
/// under the low threshold.
pub open spec fn low_condition(r: Reading, t: Thresholds) -> bool {
    r.utility_fail && (r.battery_low || r.battery_percent <= t.low)
}

/// On battery, and the charge is at or under the critical threshold.
pub open spec fn critical_condition(r: Reading, t: Thresholds) -> bool {
    r.utility_fail && r.battery_percent <= t.critical
}

/// The edges that a reading makes against the latches. The low alert is
/// held back while the battery is critical; the critical one is not held
/// back by anything.
pub open spec fn transitions_of(l: Latches, r: Reading, t: Thresholds) -> Transitions {
    Transitions {
        ac_fault_entered: r.utility_fail && !l.is_on_battery,
        ac_fault_cleared: !r.utility_fail && l.is_on_battery,
        battery_low_entered: low_condition(r, t) && !critical_condition(r, t)
            && !l.was_battery_low,
        battery_low_cleared: l.was_battery_low && !low_condition(r, t),
        battery_critical_entered: critical_condition(r, t) && !l.was_battery_critical,
        battery_critical_cleared: l.was_battery_critical && !critical_condition(r, t),
    }
}

/// The latches after a reading.
pub open spec fn latches_after(l: Latches, r: Reading, t: Thresholds) -> Latches {
    Latches {
        is_on_battery: r.utility_fail,
        was_battery_low: low_condition(r, t) && (l.was_battery_low || !critical_condition(r, t)),
        was_battery_critical: critical_condition(r, t),
    }
}

/// Compares a reading with the latches: the new latches and the edges.
pub fn detect_transitions(latches: Latches, reading: Reading, thresholds: Thresholds) -> (r: (
    Latches,
    Transitions,
))
    ensures
        r.0 == latches_after(latches, reading, thresholds),
        r.1 == transitions_of(latches, reading, thresholds),
{
    let is_low = reading.utility_fail && (reading.battery_low || reading.battery_percent
        <= thresholds.low);
    let is_critical = reading.utility_fail && reading.battery_percent <= thresholds.critical;
    let transitions = Transitions {
        ac_fault_entered: reading.utility_fail && !latches.is_on_battery,
        ac_fault_cleared: !reading.utility_fail && latches.is_on_battery,
        battery_low_entered: is_low && !is_critical && !latches.was_battery_low,
        battery_low_cleared: latches.was_battery_low && !is_low,
        battery_critical_entered: is_critical && !latches.was_battery_critical,
        battery_critical_cleared: latches.was_battery_critical && !is_critical,
    };
    let after = Latches {
        is_on_battery: reading.utility_fail,
        was_battery_low: is_low && (latches.was_battery_low || !is_critical),
        was_battery_critical: is_critical,
    };
    (after, transitions)
}

/// The latches after a run of readings.
pub open spec fn latches_after_all(l: Latches, readings: Seq<Reading>, t: Thresholds) -> Latches
    decreases readings.len(),
{
    if readings.len() == 0 {
        l
    } else {
        latches_after(latches_after_all(l, readings.drop_last(), t), readings.last(), t)
    }
}

/// How often loss of utility power is entered in a run of readings.
pub open spec fn ac_fault_entries(l: Latches, readings: Seq<Reading>, t: Thresholds) -> nat
    decreases readings.len(),
{
    if readings.len() == 0 {
        0
    } else {
        let before = latches_after_all(l, readings.drop_last(), t);
        ac_fault_entries(l, readings.drop_last(), t) + if transitions_of(
            before,
            readings.last(),
            t,
        ).ac_fault_entered {
            1nat
        } else {
            0nat
        }
    }
}

/// However many readings in a row report loss of utility power, the loss
/// is entered once if the monitor was on utility power before them, and
/// not at all if it was on battery already.
pub proof fn lemma_ac_fault_entered_once(l: Latches, readings: Seq<Reading>, t: Thresholds)
    requires
        readings.len() >= 1,
        forall|i: int| 0 <= i < readings.len() ==> (#[trigger] readings[i]).utility_fail,
    ensures
        latches_after_all(l, readings, t).is_on_battery,
        ac_fault_entries(l, readings, t) == if l.is_on_battery {
            0nat
        } else {
            1nat
        },
    decreases readings.len(),
{
    if readings.len() == 1 {
        assert(readings.drop_last().len() == 0);
        assert(latches_after_all(l, readings.drop_last(), t) == l);
        assert(ac_fault_entries(l, readings.drop_last(), t) == 0);
    } else {
        lemma_ac_fault_entered_once(l, readings.drop_last(), t);
    }
}

/// No edge fires twice in a row: after a reading made a condition begin,
/// the next reading cannot make it begin again.
pub proof fn lemma_edges_do_not_repeat(l: Latches, first: Reading, second: Reading, t: Thresholds)
    ensures
        transitions_of(l, first, t).ac_fault_entered ==> !transitions_of(
            latches_after(l, first, t),
            second,
            t,
        ).ac_fault_entered,
        transitions_of(l, first, t).battery_low_entered ==> !transitions_of(
            latches_after(l, first, t),
            second,
            t,
        ).battery_low_entered,
        transitions_of(l, first, t).battery_critical_entered ==> !transitions_of(
            latches_after(l, first, t),
            second,
            t,
        ).battery_critical_entered,
        transitions_of(l, first, t).ac_fault_cleared ==> !transitions_of(
            latches_after(l, first, t),
            second,
            t,
        ).ac_fault_cleared,
{
}

// ---------------------------------------------------------------------
// The state
// ---------------------------------------------------------------------
/// When a popup was last forced on the user.
#[derive(Clone, Copy, Debug, PartialEq, Eq)]
pub struct PopupThrottle {
    pub last_forced_popup_ms: u64,
}

/// The part of the state that the decisions read and write: plain values
/// only.
#[derive(Clone, Copy, Debug, PartialEq, Eq)]
pub struct Core {
    pub is_connected: bool,
    pub has_emitted_disconnected: bool,
    pub latches: Latches,
    pub battery_start_ms: Option<u64>,
    pub last_data_save_ms: u64,
    pub scheduler: ShutdownScheduler,
    pub sound: SoundPlayer,
    pub popup: PopupThrottle,
}

/// What is known of the device.
#[derive(Clone, Debug, PartialEq, Eq)]
pub struct UpsInfo {
    pub manufacturer: String,
    pub product: String,
    pub vendor_id: String,
    pub product_id: String,
    pub firmware: Option<String>,
}

/// The whole state of the monitor.
#[derive(Clone, Debug, PartialEq, Eq)]
pub struct AppState {
    pub settings: AppSettings,
    pub events: Vec<HistoryEvent>,
    pub data_history: Vec<DataHistoryEntry>,
    pub last_status: Option<UpsData>,
    pub device_info: Option<UpsInfo>,
    pub last_error: Option<String>,
    pub core: Core,
}

/// The state a monitor starts in: not connected, on utility power, nothing
/// scheduled, no sound valid yet.
pub open spec fn initial_core() -> Core {
    Core {
        is_connected: false,
        has_emitted_disconnected: false,
        latches: Latches {
            is_on_battery: false,
            was_battery_low: false,
            was_battery_critical: false,
        },
        battery_start_ms: None,
        last_data_save_ms: 0,
        scheduler: ShutdownScheduler { pending: None },
        sound: SoundPlayer { generation: 0 },
        popup: PopupThrottle { last_forced_popup_ms: 0 },
    }
}

/// A new state and the effects that led to it.
pub type Outcome = (Core, Seq<Effect>);

/// The history after the events among `effects` were written to it, in
/// their order.
pub open spec fn logged_all(history: Seq<HistoryEventView>, effects: Seq<Effect>, now_ms: u64)
    -> Seq<HistoryEventView>
    decreases effects.len(),
{
    if effects.len() == 0 {
        history
    } else {
        let before = logged_all(history, effects.drop_last(), now_ms);
        match effects.last() {
            Effect::EventLogged(entry) => with_newest(
                before,
                event_of(entry, now_ms),
                MAX_EVENTS as nat,
            ),
            _ => before,
        }
    }
}

/// Writing the events of two runs of effects one after the other is writing
/// the events of the two runs put together.
pub proof fn lemma_logged_all_concat(
    history: Seq<HistoryEventView>,
    first: Seq<Effect>,
    second: Seq<Effect>,
    now_ms: u64,
)
    ensures
        logged_all(history, first + second, now_ms) == logged_all(
            logged_all(history, first, now_ms),
            second,
            now_ms,
        ),
    decreases second.len(),
{
    if second.len() == 0 {
        assert(first + second =~= first);
    } else {
        assert((first + second).drop_last() =~= first + second.drop_last());
        assert((first + second).last() == second.last());
        lemma_logged_all_concat(history, first, second.drop_last(), now_ms);
    }
}

/// One effect writes one event if it says so, and none if not.
pub proof fn lemma_logged_all_one(history: Seq<HistoryEventView>, effect: Effect, now_ms: u64)
    ensures
        logged_all(history, seq![effect], now_ms) == match effect {
            Effect::EventLogged(entry) => with_newest(
                history,
                event_of(entry, now_ms),
                MAX_EVENTS as nat,
            ),
            _ => history,
        },
{
    assert(seq![effect].drop_last() =~= Seq::<Effect>::empty());
    assert(logged_all(history, seq![effect].drop_last(), now_ms) == history);
}

impl AppState {
    /// What holds of the state after a step with this outcome, whatever
    /// became of the last reading and the last error: the plain part is
    /// the outcome's, the events that the effects name were written, and
    /// configuration, stored readings and device are as they were.
    pub open spec fn stepped(self, pre: AppState, outcome: Outcome, now_ms: u64) -> bool {
        &&& self.advanced(pre, outcome, now_ms)
        &&& self.device_info == pre.device_info
    }

    /// The part of `stepped` that says nothing of the device: the plain
    /// part is the outcome's, the events that the effects name were
    /// written, and configuration and stored readings are as they were.
    pub open spec fn advanced(self, pre: AppState, outcome: Outcome, now_ms: u64) -> bool {
        &&& self.core == outcome.0
        &&& events_view(self.events@) == logged_all(events_view(pre.events@), outcome.1, now_ms)
        &&& self.settings == pre.settings
        &&& self.data_history == pre.data_history
    }

    /// What holds of the state after a step with this outcome that left
    /// the last reading and the last error alone.
    pub open spec fn follows(self, pre: AppState, outcome: Outcome, now_ms: u64) -> bool {
        &&& self.stepped(pre, outcome, now_ms)
        &&& self.last_status == pre.last_status
        &&& self.last_error == pre.last_error
    }

    /// What holds of the state after it took in the reading `status`: what
    /// the reading set off happened, the reading is the last one, and it
    /// went into the history where that was due.
    pub open spec fn took_reading(
        self,
        pre: AppState,
        status: UpsDataView,
        now_ms: u64,
        window_focused: bool,
    ) -> bool {
        &&& self.core == status_handled(pre.core, pre.settings@, status, now_ms, window_focused).0
        &&& events_view(self.events@) == logged_all(
            events_view(pre.events@),
            status_handled(pre.core, pre.settings@, status, now_ms, window_focused).1,
            now_ms,
        )
        &&& self.last_status matches Some(last) && last@ == status
        &&& data_view(self.data_history@) == if data_point_wanted(pre.core, pre.settings@, now_ms) {
            with_newest(
                data_view(pre.data_history@),
                data_point_of(status, now_ms),
                MAX_DATA_POINTS as nat,
            )
        } else {
            data_view(pre.data_history@)
        }
        &&& self.settings == pre.settings
        &&& self.device_info == pre.device_info
        &&& self.last_error == pre.last_error
    }
}

/// Two steps in a row make one step with the effects of both.
pub proof fn lemma_follows_chain(
    pre: AppState,
    mid: AppState,
    post: AppState,
    first: Outcome,
    second: Outcome,
    now_ms: u64,
)
    requires
        mid.follows(pre, first, now_ms),
        post.follows(mid, second, now_ms),
    ensures
        post.follows(pre, (second.0, first.1 + second.1), now_ms),
{
    lemma_logged_all_concat(events_view(pre.events@), first.1, second.1, now_ms);
}

// ---------------------------------------------------------------------
// What each step decides
// ---------------------------------------------------------------------
/// The effect of writing an event: none in monitor-only mode.
pub open spec fn logged(monitor_only_mode: bool, entry: LogEntry) -> Seq<Effect> {
    if monitor_only_mode {
        Seq::<Effect>::empty()
    } else {
        seq![Effect::EventLogged(entry)]
    }
}

/// `effects` where `condition` holds, else none.
pub open spec fn only_if(condition: bool, effects: Seq<Effect>) -> Seq<Effect> {
    if condition {
        effects
    } else {
        Seq::<Effect>::empty()
    }
}

/// Cancelling: nothing is pending afterwards; the cancellation is
/// announced where something was pending and announcing is asked for.
pub open spec fn cancelled(core: Core, emit_event: bool) -> Outcome {
    (
        Core { scheduler: ShutdownScheduler { pending: None }, ..core },
        only_if(core.scheduler.pending is Some && emit_event, seq![Effect::EmitShutdownCancelled]),
    )
}

/// Scheduling: the earliest deadline stays; a request that took effect is
/// announced.
pub open spec fn scheduled(core: Core, now_ms: u64, minutes: u64, reason: ShutdownReason)
    -> Outcome {
    (
        Core {
            scheduler: ShutdownScheduler {
                pending: requested(core.scheduler.pending, now_ms, minutes, reason),
            },
            ..core
        },
        only_if(
            replaces(core.scheduler.pending, deadline_of(now_ms, minutes)),
            seq![
                Effect::EmitShutdownScheduled(
                    ScheduleChange {
                        minutes: clamped_delay(minutes),
                        deadline_ms: deadline_of(now_ms, minutes),
                    },
                ),
            ],
        ),
    )
}

/// Whether a popup may be forced now: the last one is at least six seconds
/// ago, and the main window is not both visible and focused.
pub open spec fn may_force_popup(popup: PopupThrottle, now_ms: u64, window_focused: bool)
    -> bool {
    now_ms >= popup.last_forced_popup_ms && now_ms - popup.last_forced_popup_ms
        >= POPUP_THROTTLE_MS && !window_focused
}

/// The throttle after the question whether a popup may be forced.
pub open spec fn popup_after(popup: PopupThrottle, now_ms: u64, window_focused: bool)
    -> PopupThrottle {
    if may_force_popup(popup, now_ms, window_focused) {
        PopupThrottle { last_forced_popup_ms: now_ms }
    } else {
        popup
    }
}

/// The shutdown that an alert schedules under a configuration, if any:
/// loss of utility power takes the configured delay, a low battery five
/// minutes and a critical one one minute.
pub open spec fn shutdown_rule(settings: AppSettingsView, kind: AlertKind) -> Option<
    (u64, ShutdownReason),
> {
    match kind {
        AlertKind::AcFault => if settings.shutdown_pc.on_ac_fault.enabled {
            Some((settings.shutdown_pc.on_ac_fault.delay_minutes, ShutdownReason::AcFault))
        } else {
            None
        },
        AlertKind::BatteryLow => if settings.shutdown_pc.on_battery_low.enabled {
            Some((BATTERY_LOW_SHUTDOWN_DELAY_MINUTES, ShutdownReason::BatteryLow))
        } else {
            None
        },
        AlertKind::BatteryCritical => if settings.shutdown_pc.on_battery_critical.enabled {
            Some((BATTERY_CRITICAL_SHUTDOWN_DELAY_MINUTES, ShutdownReason::BatteryCritical))
        } else {
            None
        },
    }
}

/// The notice of an alert for a reading.
pub open spec fn alert_notice(kind: AlertKind, status: UpsDataView) -> Notice {
    Notice::Alert {
        kind,
        input_voltage: status.input_voltage,
        battery_percent: status.battery_percent,
        load_percent: status.load_percent,
    }
}

/// What an alert shows where popups are configured for its kind: a
/// notification where notifications are switched on, the urgent alert, and
/// a forced popup where one may be forced.
pub open spec fn alert_shown(
    core: Core,
    enable_notifications: bool,
    config: AlertConfig,
    notice: Notice,
    now_ms: u64,
    window_focused: bool,
) -> Outcome {
    if !config.show_popup {
        (core, Seq::<Effect>::empty())
    } else {
        (
            Core { popup: popup_after(core.popup, now_ms, window_focused), ..core },
            only_if(enable_notifications, seq![Effect::Notify(notice)])
                + seq![Effect::UrgentAlert(notice)] + only_if(
                may_force_popup(core.popup, now_ms, window_focused),
                seq![Effect::ForcePopup(notice)],
            ),
        )
    }
}

/// The sound of an alert where sound is configured for its kind: a new
/// token, under which the sound is started.
pub open spec fn alert_sounded(core: Core, kind: AlertKind, config: AlertConfig) -> Outcome {
    if !config.play_sound {
        (core, Seq::<Effect>::empty())
    } else {
        (
            Core {
                sound: SoundPlayer { generation: next_generation(core.sound.generation) },
                ..core
            },
            seq![
                Effect::PlaySound {
                    kind,
                    generation: next_generation(core.sound.generation),
                    repeats: clamped_repeats(config.sound_repeats),
                },
            ],
        )
    }
}

/// The shutdown that an alert schedules, where the configuration has one
/// for its kind.
pub open spec fn alert_scheduled(core: Core, settings: AppSettingsView, kind: AlertKind, now_ms: u64)
    -> Outcome {
    match shutdown_rule(settings, kind) {
        Some((minutes, reason)) => scheduled(core, now_ms, minutes, reason),
        None => (core, Seq::<Effect>::empty()),
    }
}

/// What an alert does: nothing in monitor-only mode; else what it shows,
/// then its sound, then the shutdown it schedules.
#[verifier::opaque]
pub open spec fn alerted(
    core: Core,
    settings: AppSettingsView,
    kind: AlertKind,
    notice: Notice,
    now_ms: u64,
    window_focused: bool,
) -> Outcome {
    if settings.monitor_only_mode {
        (core, Seq::<Effect>::empty())
    } else {
        let config = config_of(settings, kind);
        let a = alert_shown(
            core,
            settings.enable_notifications,
            config,
            notice,
            now_ms,
            window_focused,
        );
        let b = alert_sounded(a.0, kind, config);
        let c = alert_scheduled(b.0, settings, kind, now_ms);
        (c.0, a.1 + b.1 + c.1)
    }
}

/// What the tick does with the pending shutdown: nothing in monitor-only
/// mode or while none is due; else the schedule is cleared without a
/// cancellation, the execution is announced and logged with the reason it
/// was scheduled for, and the system action is asked for.
#[verifier::opaque]
pub open spec fn shutdown_processed(
    core: Core,
    settings: AppSettingsView,
    now_ms: u64,
    window_focused: bool,
) -> Outcome {
    if settings.monitor_only_mode || !is_due(core.scheduler.pending, now_ms) {
        (core, Seq::<Effect>::empty())
    } else {
        let reason = core.scheduler.pending->0.reason;
        let notice = Notice::ShutdownExecution { reason };
        (
            Core {
                scheduler: ShutdownScheduler { pending: None },
                popup: popup_after(core.popup, now_ms, window_focused),
                ..core
            },
            seq![Effect::Notify(notice)] + only_if(
                may_force_popup(core.popup, now_ms, window_focused),
                seq![Effect::ForcePopup(notice)],
            ) + seq![
                Effect::UrgentAlert(notice),
                Effect::EventLogged(LogEntry::ShutdownExecution(reason)),
                Effect::ExecuteShutdown,
            ],
        )
    }
}

/// Loss of utility power, where it was entered: the battery timer starts
/// and the event is logged.
pub open spec fn ac_fault_noted(core: Core, monitor_only_mode: bool, entered: bool, now_ms: u64)
    -> Outcome {
    if entered {
        (
            Core { battery_start_ms: Some(now_ms), ..core },
            logged(monitor_only_mode, LogEntry::AcFault),
        )
    } else {
        (core, Seq::<Effect>::empty())
    }
}

/// Return of utility power, where it happened: the battery timer stops,
/// the event is logged, the pending shutdown is cancelled and every sound
/// is silenced.
pub open spec fn ac_return_noted(core: Core, monitor_only_mode: bool, cleared: bool) -> Outcome {
    if cleared {
        (
            Core {
                battery_start_ms: None,
                scheduler: ShutdownScheduler { pending: None },
                sound: SoundPlayer { generation: next_generation(core.sound.generation) },
                ..core
            },
            logged(monitor_only_mode, LogEntry::NormalAc) + cancelled(core, true).1,
        )
    } else {
        (core, Seq::<Effect>::empty())
    }
}

/// What the edges of a reading do before any alert goes out: loss and
/// return of utility power are taken note of, and the two battery edges
/// are logged.
#[verifier::opaque]
pub open spec fn power_edges(core: Core, monitor_only_mode: bool, t: Transitions, now_ms: u64)
    -> Outcome {
    let a = ac_fault_noted(core, monitor_only_mode, t.ac_fault_entered, now_ms);
    let b = ac_return_noted(a.0, monitor_only_mode, t.ac_fault_cleared);
    (
        b.0,
        a.1 + b.1 + only_if(t.battery_low_entered, logged(monitor_only_mode, LogEntry::BatteryLow))
            + only_if(
            t.battery_critical_entered,
            logged(monitor_only_mode, LogEntry::BatteryCritical),
        ),
    )
}

/// One alert where its edge fired, else nothing.
pub open spec fn alerted_if(
    fired: bool,
    core: Core,
    settings: AppSettingsView,
    kind: AlertKind,
    status: UpsDataView,
    now_ms: u64,
    window_focused: bool,
) -> Outcome {
    if fired {
        alerted(core, settings, kind, alert_notice(kind, status), now_ms, window_focused)
    } else {
        (core, Seq::<Effect>::empty())
    }
}

/// The alerts of a reading, in their order: loss of utility power, low
/// battery, critical battery.
#[verifier::opaque]
pub open spec fn alerts_dispatched(
    core: Core,
    settings: AppSettingsView,
    t: Transitions,
    status: UpsDataView,
    now_ms: u64,
    window_focused: bool,
) -> Outcome {
    let a = alerted_if(
        t.ac_fault_entered,
        core,
        settings,
        AlertKind::AcFault,
        status,
        now_ms,
        window_focused,
    );
    let b = alerted_if(
        t.battery_low_entered,
        a.0,
        settings,
        AlertKind::BatteryLow,
        status,
        now_ms,
        window_focused,
    );
    let c = alerted_if(
        t.battery_critical_entered,
        b.0,
        settings,
        AlertKind::BatteryCritical,
        status,
        now_ms,
        window_focused,
    );
    (c.0, a.1 + b.1 + c.1)
}

/// Whether the reading taken at `now_ms` goes into the history.
pub open spec fn data_point_wanted(core: Core, settings: AppSettingsView, now_ms: u64) -> bool {
    settings.save_history && data_point_due(
        core.last_data_save_ms,
        now_ms,
        settings.history_interval,
    )
}

/// What ends the handling of a reading: the latches take it in, it goes
/// into the history where that is due, and it is handed on.
pub open spec fn reading_recorded(
    core: Core,
    settings: AppSettingsView,
    reading: Reading,
    now_ms: u64,
) -> Outcome {
    (
        Core {
            latches: latches_after(core.latches, reading, thresholds_of(settings)),
            last_data_save_ms: if data_point_wanted(core, settings, now_ms) {
                now_ms
            } else {
                core.last_data_save_ms
            },
            ..core
        },
        only_if(data_point_wanted(core, settings, now_ms), seq![Effect::DataPointLogged])
            + seq![Effect::EmitUpsData],
    )
}

/// What the edges of a reading set off: they are taken note of, then the
/// alerts go out, then the shutdown deadline is checked.
pub open spec fn reacted(
    core: Core,
    settings: AppSettingsView,
    t: Transitions,
    status: UpsDataView,
    now_ms: u64,
    window_focused: bool,
) -> Outcome {
    let a = power_edges(core, settings.monitor_only_mode, t, now_ms);
    let b = alerts_dispatched(a.0, settings, t, status, now_ms, window_focused);
    let c = shutdown_processed(b.0, settings, now_ms, window_focused);
    (c.0, a.1 + b.1 + c.1)
}

/// What a reading does, from the edges it makes to its place in the
/// history.
pub open spec fn status_handled(
    core: Core,
    settings: AppSettingsView,
    status: UpsDataView,
    now_ms: u64,
    window_focused: bool,
) -> Outcome {
    let t = transitions_of(core.latches, reading_of(status), thresholds_of(settings));
    let r = reacted(core, settings, t, status, now_ms, window_focused);
    let d = reading_recorded(r.0, settings, reading_of(status), now_ms);
    (d.0, r.1 + d.1)
}

// ---------------------------------------------------------------------
// Effects that write no event
// ---------------------------------------------------------------------
/// None of the effects says that an event was written.
pub open spec fn no_logs(effects: Seq<Effect>) -> bool {
    forall|i: int| 0 <= i < effects.len() ==> !((#[trigger] effects[i]) is EventLogged)
}

/// Effects that name no event leave the history as it is.
pub proof fn lemma_quiet(history: Seq<HistoryEventView>, effects: Seq<Effect>, now_ms: u64)
    requires
        no_logs(effects),
    ensures
        logged_all(history, effects, now_ms) == history,
    decreases effects.len(),
{
    if effects.len() > 0 {
        assert(!(effects[effects.len() - 1] is EventLogged));
        assert forall|i: int| 0 <= i < effects.drop_last().len() implies !((
        #[trigger] effects.drop_last()[i]) is EventLogged) by {
            assert(effects.drop_last()[i] == effects[i]);
        }
        lemma_quiet(history, effects.drop_last(), now_ms);
    }
}

/// An alert writes no event: the edge that set it off was logged before.
pub proof fn lemma_alerted_quiet(
    core: Core,
    settings: AppSettingsView,
    kind: AlertKind,
    notice: Notice,
    now_ms: u64,
    window_focused: bool,
)
    ensures
        no_logs(alerted(core, settings, kind, notice, now_ms, window_focused).1),
{
    reveal(alerted);
}

impl AppState {
    /// Everything but the plain part is as it was in `pre`.
    pub open spec fn keeps_records(self, pre: AppState) -> bool {
        &&& self.settings == pre.settings
        &&& self.events == pre.events
        &&& self.data_history == pre.data_history
        &&& self.last_status == pre.last_status
        &&& self.device_info == pre.device_info
        &&& self.last_error == pre.last_error
    }
}

/// A step that kept the records and wrote no event follows from its
/// outcome.
pub proof fn lemma_quiet_follows(pre: AppState, post: AppState, effects: Seq<Effect>, now_ms: u64)
    requires
        post.keeps_records(pre),
        no_logs(effects),
    ensures
        post.follows(pre, (post.core, effects), now_ms),
{
    lemma_quiet(events_view(pre.events@), effects, now_ms);
}

fn push_effect(effects: &mut Vec<Effect>, effect: Effect)
    ensures
        final(effects)@ == old(effects)@ + seq![effect],
{
    effects.push(effect);
    assert(effects@ =~= old(effects)@ + seq![effect]);
}

/// The shutdown that an alert schedules under a configuration, if any.
pub fn shutdown_rule_for(settings: &AppSettings, kind: AlertKind) -> (r: Option<
    (u64, ShutdownReason),
>)
    ensures
        r == shutdown_rule(settings@, kind),
{
    match kind {
        AlertKind::AcFault => if settings.shutdown_pc.on_ac_fault.enabled {
            Some((settings.shutdown_pc.on_ac_fault.delay_minutes, ShutdownReason::AcFault))
        } else {
            None
        },
        AlertKind::BatteryLow => if settings.shutdown_pc.on_battery_low.enabled {
            Some((BATTERY_LOW_SHUTDOWN_DELAY_MINUTES, ShutdownReason::BatteryLow))
        } else {
            None
        },
        AlertKind::BatteryCritical => if settings.shutdown_pc.on_battery_critical.enabled {
            Some((BATTERY_CRITICAL_SHUTDOWN_DELAY_MINUTES, ShutdownReason::BatteryCritical))
        } else {
            None
        },
    }
}

/// The plain part of a reading.
pub fn read_status(status: &UpsData) -> (r: Reading)
    ensures
        r == reading_of(status@),
{
    Reading {
        utility_fail: status.status.utility_fail,
        battery_low: status.status.battery_low,
        battery_percent: status.battery_percent,
    }
}

/// The notice of an alert for a reading.
pub fn notice_for(kind: AlertKind, status: &UpsData) -> (r: Notice)
    ensures
        r == alert_notice(kind, status@),
{
    Notice::Alert {
        kind,
        input_voltage: status.input_voltage,
        battery_percent: status.battery_percent,
        load_percent: status.load_percent,
    }
}

impl AppState {
    /// The state of a monitor that starts with this configuration and these
    /// histories. The configuration is normalised.
    pub fn new(
        settings: AppSettings,
        events: Vec<HistoryEvent>,
        data_history: Vec<DataHistoryEntry>,
    ) -> (r: Self)
        ensures
            r.settings@ == normalized(settings@),
            r.events == events,
            r.data_history == data_history,
            r.last_status is None,
            r.device_info is None,
            r.last_error is None,
            r.core == initial_core(),
    {
        AppState {
            settings: settings.normalize(),
            events,
            data_history,
            last_status: None,
            device_info: None,
            last_error: None,
            core: Core {
                is_connected: false,
                has_emitted_disconnected: false,
                latches: Latches {
                    is_on_battery: false,
                    was_battery_low: false,
                    was_battery_critical: false,
                },
                battery_start_ms: None,
                last_data_save_ms: 0,
                scheduler: ShutdownScheduler { pending: None },
                sound: SoundPlayer { generation: 0 },
                popup: PopupThrottle { last_forced_popup_ms: 0 },
            },
        }
    }

    /// Writes an event to the history, unless in monitor-only mode.
    pub fn log_event(&mut self, entry: LogEntry, now_ms: u64, effects: &mut Vec<Effect>)
        ensures
            final(self).follows(
                *old(self),
                (old(self).core, logged(old(self).settings.monitor_only_mode, entry)),
                now_ms,
            ),
            final(effects)@ == old(effects)@ + logged(old(self).settings.monitor_only_mode, entry),
    {
        let written = log_event(&mut self.events, self.settings.monitor_only_mode, entry, now_ms);
        if written {
            push_effect(effects, Effect::EventLogged(entry));
            proof {
                lemma_logged_all_one(
                    events_view(old(self).events@),
                    Effect::EventLogged(entry),
                    now_ms,
                );
            }
        } else {
            assert(effects@ =~= old(effects)@ + Seq::<Effect>::empty());
        }
    }

    /// Cancels the pending shutdown, and says whether there was one. The
    /// cancellation is announced where `emit_event` is set.
    pub fn cancel_scheduled_shutdown(&mut self, emit_event: bool, effects: &mut Vec<Effect>) -> (had_schedule:
        bool)
        ensures
            final(self).keeps_records(*old(self)),
            final(self).core == cancelled(old(self).core, emit_event).0,
            final(effects)@ == old(effects)@ + cancelled(old(self).core, emit_event).1,
            had_schedule == old(self).core.scheduler.pending is Some,
    {
        let had_schedule = self.core.scheduler.cancel_scheduled_shutdown();
        if had_schedule && emit_event {
            push_effect(effects, Effect::EmitShutdownCancelled);
        } else {
            assert(effects@ =~= old(effects)@ + Seq::<Effect>::empty());
        }
        had_schedule
    }

    /// Asks for a shutdown `delay_minutes` from now, clamped to one minute
    /// to two hours. The earliest deadline stays pending; the result says
    /// whether this request became it, in which case it is announced.
    pub fn schedule_shutdown_after_minutes(
        &mut self,
        now_ms: u64,
        delay_minutes: u64,
        reason: ShutdownReason,
        effects: &mut Vec<Effect>,
    ) -> (replaced: bool)
        ensures
            final(self).keeps_records(*old(self)),
            final(self).core == scheduled(old(self).core, now_ms, delay_minutes, reason).0,
            final(effects)@ == old(effects)@ + scheduled(
                old(self).core,
                now_ms,
                delay_minutes,
                reason,
            ).1,
            replaced == replaces(
                old(self).core.scheduler.pending,
                deadline_of(now_ms, delay_minutes),
            ),
    {
        match self.core.scheduler.schedule_shutdown_after_minutes(now_ms, delay_minutes, reason) {
            Some(change) => {
                push_effect(effects, Effect::EmitShutdownScheduled(change));
                true
            },
            None => {
                assert(effects@ =~= old(effects)@ + Seq::<Effect>::empty());
                false
            },
        }
    }

    /// Asks whether a popup may be forced on the user now, and if so takes
    /// note that one is.
    pub fn should_force_popup(&mut self, now_ms: u64, window_focused: bool) -> (r: bool)
        ensures
            final(self).keeps_records(*old(self)),
            r == may_force_popup(old(self).core.popup, now_ms, window_focused),
            final(self).core == (Core {
                popup: popup_after(old(self).core.popup, now_ms, window_focused),
                ..old(self).core
            }),
    {
        let last = self.core.popup.last_forced_popup_ms;
        if now_ms < last || now_ms - last < POPUP_THROTTLE_MS {
            return false;
        }
        if window_focused {
            return false;
        }
        self.core.popup.last_forced_popup_ms = now_ms;
        true
    }

    /// Silences every sound that plays.
    pub fn stop_sound(&mut self)
        ensures
            final(self).keeps_records(*old(self)),
            final(self).core == (Core {
                sound: SoundPlayer { generation: next_generation(old(self).core.sound.generation) },
                ..old(self).core
            }),
    {
        self.core.sound.stop();
    }

    fn show_alert(
        &mut self,
        config: AlertConfig,
        notice: Notice,
        now_ms: u64,
        window_focused: bool,
        effects: &mut Vec<Effect>,
    )
        ensures
            final(self).keeps_records(*old(self)),
            final(self).core == alert_shown(
                old(self).core,
                old(self).settings.enable_notifications,
                config,
                notice,
                now_ms,
                window_focused,
            ).0,
            final(effects)@ == old(effects)@ + alert_shown(
                old(self).core,
                old(self).settings.enable_notifications,
                config,
                notice,
                now_ms,
                window_focused,
            ).1,
    {
        if !config.show_popup {
            assert(effects@ =~= old(effects)@ + Seq::<Effect>::empty());
            return ;
        }
        let ghost mut acc = Seq::<Effect>::empty();
        if self.settings.enable_notifications {
            push_effect(effects, Effect::Notify(notice));
            proof {
                acc = acc + seq![Effect::Notify(notice)];
            }
        }
        assert(effects@ =~= old(effects)@ + acc);
        push_effect(effects, Effect::UrgentAlert(notice));
        proof {
            acc = acc + seq![Effect::UrgentAlert(notice)];
        }
        if self.should_force_popup(now_ms, window_focused) {
            push_effect(effects, Effect::ForcePopup(notice));
            proof {
                acc = acc + seq![Effect::ForcePopup(notice)];
            }
        }
        assert(effects@ =~= old(effects)@ + acc);
        assert(acc =~= alert_shown(
            old(self).core,
            old(self).settings.enable_notifications,
            config,
            notice,
            now_ms,
            window_focused,
        ).1);
    }

    fn sound_alert(&mut self, kind: AlertKind, config: AlertConfig, effects: &mut Vec<Effect>)
        ensures
            final(self).keeps_records(*old(self)),
            final(self).core == alert_sounded(old(self).core, kind, config).0,
            final(effects)@ == old(effects)@ + alert_sounded(old(self).core, kind, config).1,
    {
        if !config.play_sound {
            assert(effects@ =~= old(effects)@ + Seq::<Effect>::empty());
            return ;
        }
        let token = self.core.sound.play();
        push_effect(
            effects,
            Effect::PlaySound { kind, generation: token, repeats: clamp_repeats(config.sound_repeats) },
        );
    }

    fn schedule_for_alert(&mut self, kind: AlertKind, now_ms: u64, effects: &mut Vec<Effect>)
        ensures
            final(self).keeps_records(*old(self)),
            final(self).core == alert_scheduled(old(self).core, old(self).settings@, kind, now_ms).0,
            final(effects)@ == old(effects)@ + alert_scheduled(
                old(self).core,
                old(self).settings@,
                kind,
                now_ms,
            ).1,
    {
        match shutdown_rule_for(&self.settings, kind) {
            Some((minutes, reason)) => {
                self.schedule_shutdown_after_minutes(now_ms, minutes, reason, effects);
            },
            None => {
                assert(effects@ =~= old(effects)@ + Seq::<Effect>::empty());
            },
        }
    }

    /// Dispatches one alert.
    pub fn handle_alert_transition(
        &mut self,
        kind: AlertKind,
        notice: Notice,
        now_ms: u64,
        window_focused: bool,
        effects: &mut Vec<Effect>,
    )
        ensures
            final(self).keeps_records(*old(self)),
            final(self).core == alerted(
                old(self).core,
                old(self).settings@,
                kind,
                notice,
                now_ms,
                window_focused,
            ).0,
            final(effects)@ == old(effects)@ + alerted(
                old(self).core,
                old(self).settings@,
                kind,
                notice,
                now_ms,
                window_focused,
            ).1,
    {
        proof {
            reveal(alerted);
        }
        if self.settings.monitor_only_mode {
            assert(effects@ =~= old(effects)@ + Seq::<Effect>::empty());
            return ;
        }
        let config = alert_config_for_kind(&self.settings, kind);
        let ghost a = alert_shown(
            old(self).core,
            old(self).settings.enable_notifications,
            config,
            notice,
            now_ms,
            window_focused,
        );
        let ghost b = alert_sounded(a.0, kind, config);
        let ghost c = alert_scheduled(b.0, old(self).settings@, kind, now_ms);
        self.show_alert(config, notice, now_ms, window_focused, effects);
        self.sound_alert(kind, config, effects);
        self.schedule_for_alert(kind, now_ms, effects);
        assert(effects@ =~= old(effects)@ + (a.1 + b.1 + c.1));
    }

    /// Checks the shutdown deadline and, where it has passed, starts the
    /// shutdown. Called on every tick, whether or not a reading came.
    pub fn process_pending_shutdown(&mut self, now_ms: u64, window_focused: bool, effects: &mut Vec<
        Effect,
    >)
        ensures
            final(self).follows(
                *old(self),
                shutdown_processed(old(self).core, old(self).settings@, now_ms, window_focused),
                now_ms,
            ),
            final(effects)@ == old(effects)@ + shutdown_processed(
                old(self).core,
                old(self).settings@,
                now_ms,
                window_focused,
            ).1,
    {
        proof {
            reveal(shutdown_processed);
        }
        let ghost pre = *old(self);
        let ghost h0 = events_view(pre.events@);
        if self.settings.monitor_only_mode {
            assert(effects@ =~= old(effects)@ + Seq::<Effect>::empty());
            return ;
        }
        let reason = match self.core.scheduler.take_due(now_ms) {
            Some(reason) => reason,
            None => {
                assert(effects@ =~= old(effects)@ + Seq::<Effect>::empty());
                return ;
            },
        };
        let notice = Notice::ShutdownExecution { reason };
        push_effect(effects, Effect::Notify(notice));
        let ghost mut acc = seq![Effect::Notify(notice)];
        if self.should_force_popup(now_ms, window_focused) {
            push_effect(effects, Effect::ForcePopup(notice));
            proof {
                acc = acc + seq![Effect::ForcePopup(notice)];
            }
        }
        assert(effects@ =~= old(effects)@ + acc);
        push_effect(effects, Effect::UrgentAlert(notice));
        proof {
            acc = acc + seq![Effect::UrgentAlert(notice)];
        }
        assert(effects@ =~= old(effects)@ + acc);
        proof {
            lemma_quiet(h0, acc, now_ms);
        }
        let ghost mid = *self;
        self.log_event(LogEntry::ShutdownExecution(reason), now_ms, effects);
        proof {
            let l = logged(false, LogEntry::ShutdownExecution(reason));
            lemma_logged_all_concat(h0, acc, l, now_ms);
            acc = acc + l;
        }
        assert(effects@ =~= old(effects)@ + acc);
        push_effect(effects, Effect::ExecuteShutdown);
        proof {
            lemma_logged_all_concat(h0, acc, seq![Effect::ExecuteShutdown], now_ms);
            lemma_logged_all_one(logged_all(h0, acc, now_ms), Effect::ExecuteShutdown, now_ms);
            acc = acc + seq![Effect::ExecuteShutdown];
        }
        assert(effects@ =~= old(effects)@ + acc);
        assert(acc =~= shutdown_processed(pre.core, pre.settings@, now_ms, window_focused).1);
    }
}

impl AppState {
    fn log_if(&mut self, fired: bool, entry: LogEntry, now_ms: u64, effects: &mut Vec<Effect>)
        ensures
            final(self).follows(
                *old(self),
                (old(self).core, only_if(fired, logged(old(self).settings.monitor_only_mode, entry))),
                now_ms,
            ),
            final(effects)@ == old(effects)@ + only_if(
                fired,
                logged(old(self).settings.monitor_only_mode, entry),
            ),
    {
        if fired {
            self.log_event(entry, now_ms, effects);
        } else {
            assert(effects@ =~= old(effects)@ + Seq::<Effect>::empty());
        }
    }

    fn note_ac_fault(&mut self, entered: bool, now_ms: u64, effects: &mut Vec<Effect>)
        ensures
            final(self).follows(
                *old(self),
                ac_fault_noted(
                    old(self).core,
                    old(self).settings.monitor_only_mode,
                    entered,
                    now_ms,
                ),
                now_ms,
            ),
            final(effects)@ == old(effects)@ + ac_fault_noted(
                old(self).core,
                old(self).settings.monitor_only_mode,
                entered,
                now_ms,
            ).1,
    {
        if entered {
            self.log_event(LogEntry::AcFault, now_ms, effects);
            self.core.battery_start_ms = Some(now_ms);
        } else {
            assert(effects@ =~= old(effects)@ + Seq::<Effect>::empty());
        }
    }

    fn note_ac_return(&mut self, cleared: bool, now_ms: u64, effects: &mut Vec<Effect>)
        ensures
            final(self).follows(
                *old(self),
                ac_return_noted(old(self).core, old(self).settings.monitor_only_mode, cleared),
                now_ms,
            ),
            final(effects)@ == old(effects)@ + ac_return_noted(
                old(self).core,
                old(self).settings.monitor_only_mode,
                cleared,
            ).1,
    {
        if !cleared {
            assert(effects@ =~= old(effects)@ + Seq::<Effect>::empty());
            return ;
        }
        let ghost pre = *old(self);
        let ghost l = logged(pre.settings.monitor_only_mode, LogEntry::NormalAc);
        let ghost c = cancelled(pre.core, true).1;
        self.log_event(LogEntry::NormalAc, now_ms, effects);
        let ghost mid = *self;
        self.cancel_scheduled_shutdown(true, effects);
        self.core.sound.stop();
        self.core.battery_start_ms = None;
        proof {
            lemma_quiet(events_view(mid.events@), c, now_ms);
            lemma_logged_all_concat(events_view(pre.events@), l, c, now_ms);
        }
        assert(effects@ =~= old(effects)@ + (l + c));
    }

    fn note_power_edges(&mut self, t: Transitions, now_ms: u64, effects: &mut Vec<Effect>)
        ensures
            final(self).follows(
                *old(self),
                power_edges(old(self).core, old(self).settings.monitor_only_mode, t, now_ms),
                now_ms,
            ),
            final(effects)@ == old(effects)@ + power_edges(
                old(self).core,
                old(self).settings.monitor_only_mode,
                t,
                now_ms,
            ).1,
    {
        proof {
            reveal(power_edges);
        }
        let ghost s0 = *old(self);
        let ghost mo = s0.settings.monitor_only_mode;
        let ghost a = ac_fault_noted(s0.core, mo, t.ac_fault_entered, now_ms);
        self.note_ac_fault(t.ac_fault_entered, now_ms, effects);
        let ghost s1 = *self;
        let ghost b = ac_return_noted(a.0, mo, t.ac_fault_cleared);
        self.note_ac_return(t.ac_fault_cleared, now_ms, effects);
        let ghost s2 = *self;
        let ghost c = (b.0, only_if(t.battery_low_entered, logged(mo, LogEntry::BatteryLow)));
        self.log_if(t.battery_low_entered, LogEntry::BatteryLow, now_ms, effects);
        let ghost s3 = *self;
        let ghost d = (
            b.0,
            only_if(t.battery_critical_entered, logged(mo, LogEntry::BatteryCritical)),
        );
        self.log_if(t.battery_critical_entered, LogEntry::BatteryCritical, now_ms, effects);
        proof {
            lemma_follows_chain(s0, s1, s2, a, b, now_ms);
            lemma_follows_chain(s0, s2, s3, (b.0, a.1 + b.1), c, now_ms);
            lemma_follows_chain(s0, s3, *self, (b.0, a.1 + b.1 + c.1), d, now_ms);
        }
        assert(effects@ =~= old(effects)@ + (a.1 + b.1 + c.1 + d.1));
    }

    fn alert_if(
        &mut self,
        fired: bool,
        kind: AlertKind,
        status: &UpsData,
        now_ms: u64,
        window_focused: bool,
        effects: &mut Vec<Effect>,
    )
        ensures
            final(self).keeps_records(*old(self)),
            final(self).core == alerted_if(
                fired,
                old(self).core,
                old(self).settings@,
                kind,
                status@,
                now_ms,
                window_focused,
            ).0,
            final(effects)@ == old(effects)@ + alerted_if(
                fired,
                old(self).core,
                old(self).settings@,
                kind,
                status@,
                now_ms,
                window_focused,
            ).1,
    {
        if fired {
            self.handle_alert_transition(
                kind,
                notice_for(kind, status),
                now_ms,
                window_focused,
                effects,
            );
        } else {
            assert(effects@ =~= old(effects)@ + Seq::<Effect>::empty());
        }
    }

    fn dispatch_alerts(
        &mut self,
        t: Transitions,
        status: &UpsData,
        now_ms: u64,
        window_focused: bool,
        effects: &mut Vec<Effect>,
    )
        ensures
            final(self).keeps_records(*old(self)),
            final(self).core == alerts_dispatched(
                old(self).core,
                old(self).settings@,
                t,
                status@,
                now_ms,
                window_focused,
            ).0,
            final(effects)@ == old(effects)@ + alerts_dispatched(
                old(self).core,
                old(self).settings@,
                t,
                status@,
                now_ms,
                window_focused,
            ).1,
    {
        proof {
            reveal(alerts_dispatched);
        }
        let ghost s0 = *old(self);
        let ghost a = alerted_if(
            t.ac_fault_entered,
            s0.core,
            s0.settings@,
            AlertKind::AcFault,
            status@,
            now_ms,
            window_focused,
        );
        let ghost b = alerted_if(
            t.battery_low_entered,
            a.0,
            s0.settings@,
            AlertKind::BatteryLow,
            status@,
            now_ms,
            window_focused,
        );
        let ghost c = alerted_if(
            t.battery_critical_entered,
            b.0,
            s0.settings@,
            AlertKind::BatteryCritical,
            status@,
            now_ms,
            window_focused,
        );
        self.alert_if(
            t.ac_fault_entered,
            AlertKind::AcFault,
            status,
            now_ms,
            window_focused,
            effects,
        );
        self.alert_if(
            t.battery_low_entered,
            AlertKind::BatteryLow,
            status,
            now_ms,
            window_focused,
            effects,
        );
        self.alert_if(
            t.battery_critical_entered,
            AlertKind::BatteryCritical,
            status,
            now_ms,
            window_focused,
            effects,
        );
        assert(effects@ =~= old(effects)@ + (a.1 + b.1 + c.1));
    }

    fn react(
        &mut self,
        t: Transitions,
        status: &UpsData,
        now_ms: u64,
        window_focused: bool,
        effects: &mut Vec<Effect>,
    )
        ensures
            final(self).follows(
                *old(self),
                reacted(old(self).core, old(self).settings@, t, status@, now_ms, window_focused),
                now_ms,
            ),
            final(effects)@ == old(effects)@ + reacted(
                old(self).core,
                old(self).settings@,
                t,
                status@,
                now_ms,
                window_focused,
            ).1,
    {
        let ghost s0 = *old(self);
        let ghost a = power_edges(s0.core, s0.settings.monitor_only_mode, t, now_ms);
        let ghost b = alerts_dispatched(a.0, s0.settings@, t, status@, now_ms, window_focused);
        let ghost c = shutdown_processed(b.0, s0.settings@, now_ms, window_focused);
        self.note_power_edges(t, now_ms, effects);
        let ghost s1 = *self;
        self.dispatch_alerts(t, status, now_ms, window_focused, effects);
        let ghost s2 = *self;
        proof {
            lemma_alerts_quiet(a.0, s0.settings@, t, status@, now_ms, window_focused);
            lemma_quiet_follows(s1, s2, b.1, now_ms);
            lemma_follows_chain(s0, s1, s2, a, b, now_ms);
        }
        self.process_pending_shutdown(now_ms, window_focused, effects);
        proof {
            lemma_follows_chain(s0, s2, *self, (b.0, a.1 + b.1), c, now_ms);
        }
        assert(effects@ =~= old(effects)@ + (a.1 + b.1 + c.1));
    }

    fn record_reading(&mut self, reading: Reading, status: UpsData, now_ms: u64, effects: &mut Vec<
        Effect,
    >)
        requires
            reading == reading_of(status@),
        ensures
            final(self).core == reading_recorded(
                old(self).core,
                old(self).settings@,
                reading,
                now_ms,
            ).0,
            final(effects)@ == old(effects)@ + reading_recorded(
                old(self).core,
                old(self).settings@,
                reading,
                now_ms,
            ).1,
            no_logs(reading_recorded(old(self).core, old(self).settings@, reading, now_ms).1),
            final(self).last_status == Some(status),
            data_view(final(self).data_history@) == if data_point_wanted(
                old(self).core,
                old(self).settings@,
                now_ms,
            ) {
                with_newest(
                    data_view(old(self).data_history@),
                    data_point_of(status@, now_ms),
                    MAX_DATA_POINTS as nat,
                )
            } else {
                data_view(old(self).data_history@)
            },
            final(self).events == old(self).events,
            final(self).settings == old(self).settings,
            final(self).device_info == old(self).device_info,
            final(self).last_error == old(self).last_error,
    {
        let thresholds = Thresholds {
            low: self.settings.low_battery_threshold,
            critical: self.settings.critical_battery_threshold,
        };
        let (latches, _) = detect_transitions(self.core.latches, reading, thresholds);
        self.core.latches = latches;
        let mut last_save = self.core.last_data_save_ms;
        let written = log_data_point_if_needed(
            &mut self.data_history,
            &mut last_save,
            self.settings.save_history,
            self.settings.history_interval,
            &status,
            now_ms,
        );
        self.core.last_data_save_ms = last_save;
        if written {
            push_effect(effects, Effect::DataPointLogged);
        }
        push_effect(effects, Effect::EmitUpsData);
        assert(effects@ =~= old(effects)@ + reading_recorded(
            old(self).core,
            old(self).settings@,
            reading,
            now_ms,
        ).1);
        self.last_status = Some(status);
    }

    /// Takes a reading in: detects the edges it makes, logs them, sends
    /// the alerts out in their order, checks the shutdown deadline, and
    /// records the reading.
    pub fn handle_status_packet(
        &mut self,
        status: UpsData,
        now_ms: u64,
        window_focused: bool,
        effects: &mut Vec<Effect>,
    )
        ensures
            final(self).took_reading(*old(self), status@, now_ms, window_focused),
            final(self).last_status == Some(status),
            final(effects)@ == old(effects)@ + status_handled(
                old(self).core,
                old(self).settings@,
                status@,
                now_ms,
                window_focused,
            ).1,
    {
        let ghost s0 = *old(self);
        let reading = read_status(&status);
        let thresholds = Thresholds {
            low: self.settings.low_battery_threshold,
            critical: self.settings.critical_battery_threshold,
        };
        let (_, t) = detect_transitions(self.core.latches, reading, thresholds);
        let ghost r = reacted(s0.core, s0.settings@, t, status@, now_ms, window_focused);
        let ghost d = reading_recorded(r.0, s0.settings@, reading, now_ms);
        self.react(t, &status, now_ms, window_focused, effects);
        proof {
            lemma_reaction_frame(s0.core, s0.settings@, t, status@, now_ms, window_focused);
        }
        self.record_reading(reading, status, now_ms, effects);
        assert(effects@ =~= old(effects)@ + (r.1 + d.1));
        proof {
            lemma_quiet(logged_all(events_view(s0.events@), r.1, now_ms), d.1, now_ms);
            lemma_logged_all_concat(events_view(s0.events@), r.1, d.1, now_ms);
        }
    }
}

/// The parts of the state that no alert and no shutdown touches: the
/// connection, the latches and the time of the last stored reading.
pub open spec fn same_frame(a: Core, b: Core) -> bool {
    &&& a.is_connected == b.is_connected
    &&& a.has_emitted_disconnected == b.has_emitted_disconnected
    &&& a.latches == b.latches
    &&& a.last_data_save_ms == b.last_data_save_ms
}

/// An alert leaves the connection, the latches, the battery timer and the
/// time of the last stored reading alone.
pub proof fn lemma_alerted_frame(
    core: Core,
    settings: AppSettingsView,
    kind: AlertKind,
    notice: Notice,
    now_ms: u64,
    window_focused: bool,
)
    ensures
        same_frame(alerted(core, settings, kind, notice, now_ms, window_focused).0, core),
        alerted(core, settings, kind, notice, now_ms, window_focused).0.battery_start_ms
            == core.battery_start_ms,
{
    reveal(alerted);
}

/// The alerts of a reading leave the connection, the latches, the battery
/// timer and the time of the last stored reading alone.
pub proof fn lemma_alerts_frame(
    core: Core,
    settings: AppSettingsView,
    t: Transitions,
    status: UpsDataView,
    now_ms: u64,
    window_focused: bool,
)
    ensures
        same_frame(alerts_dispatched(core, settings, t, status, now_ms, window_focused).0, core),
        alerts_dispatched(core, settings, t, status, now_ms, window_focused).0.battery_start_ms
            == core.battery_start_ms,
{
    reveal(alerts_dispatched);
    let a = alerted_if(
        t.ac_fault_entered,
        core,
        settings,
        AlertKind::AcFault,
        status,
        now_ms,
        window_focused,
    );
    let b = alerted_if(
        t.battery_low_entered,
        a.0,
        settings,
        AlertKind::BatteryLow,
        status,
        now_ms,
        window_focused,
    );
    lemma_alerted_frame(
        core,
        settings,
        AlertKind::AcFault,
        alert_notice(AlertKind::AcFault, status),
        now_ms,
        window_focused,
    );
    lemma_alerted_frame(
        a.0,
        settings,
        AlertKind::BatteryLow,
        alert_notice(AlertKind::BatteryLow, status),
        now_ms,
        window_focused,
    );
    lemma_alerted_frame(
        b.0,
        settings,
        AlertKind::BatteryCritical,
        alert_notice(AlertKind::BatteryCritical, status),
        now_ms,
        window_focused,
    );
}

/// What a reading sets off leaves the connection, the latches and the time
/// of the last stored reading alone.
pub proof fn lemma_reaction_frame(
    core: Core,
    settings: AppSettingsView,
    t: Transitions,
    status: UpsDataView,
    now_ms: u64,
    window_focused: bool,
)
    ensures
        same_frame(reacted(core, settings, t, status, now_ms, window_focused).0, core),
{
    reveal(power_edges);
    reveal(shutdown_processed);
    let a = power_edges(core, settings.monitor_only_mode, t, now_ms);
    assert(same_frame(a.0, core));
    lemma_alerts_frame(a.0, settings, t, status, now_ms, window_focused);
    let b = alerts_dispatched(a.0, settings, t, status, now_ms, window_focused);
    let c = shutdown_processed(b.0, settings, now_ms, window_focused);
    assert(same_frame(c.0, b.0));
}

/// The alerts of a reading write no event.
pub proof fn lemma_alerts_quiet(
    core: Core,
    settings: AppSettingsView,
    t: Transitions,
    status: UpsDataView,
    now_ms: u64,
    window_focused: bool,
)
    ensures
        no_logs(alerts_dispatched(core, settings, t, status, now_ms, window_focused).1),
{
    reveal(alerts_dispatched);
    let a = alerted_if(
        t.ac_fault_entered,
        core,
        settings,
        AlertKind::AcFault,
        status,
        now_ms,
        window_focused,
    );
    let b = alerted_if(
        t.battery_low_entered,
        a.0,
        settings,
        AlertKind::BatteryLow,
        status,
        now_ms,
        window_focused,
    );
    let c = alerted_if(
        t.battery_critical_entered,
        b.0,
        settings,
        AlertKind::BatteryCritical,
        status,
        now_ms,
        window_focused,
    );
    lemma_alerted_quiet(
        core,
        settings,
        AlertKind::AcFault,
        alert_notice(AlertKind::AcFault, status),
        now_ms,
        window_focused,
    );
    lemma_alerted_quiet(
        a.0,
        settings,
        AlertKind::BatteryLow,
        alert_notice(AlertKind::BatteryLow, status),
        now_ms,
        window_focused,
    );
    lemma_alerted_quiet(
        b.0,
        settings,
        AlertKind::BatteryCritical,
        alert_notice(AlertKind::BatteryCritical, status),
        now_ms,
        window_focused,
    );
    assert(no_logs(a.1));
    assert(no_logs(b.1));
    assert(no_logs(c.1));
}

// ---------------------------------------------------------------------
// Laws of the engine
// ---------------------------------------------------------------------
/// After a cancellation the tick finds nothing to do, at whatever time it
/// comes: it has no effect, and so asks for no system action.
pub proof fn lemma_cancelled_shutdown_never_runs(
    core: Core,
    settings: AppSettingsView,
    emit_event: bool,
    now_ms: u64,
    window_focused: bool,
)
    ensures
        shutdown_processed(cancelled(core, emit_event).0, settings, now_ms, window_focused) == (
            cancelled(core, emit_event).0,
            Seq::<Effect>::empty(),
        ),
{
    reveal(shutdown_processed);
}

/// The tick asks for the system action only where a shutdown is due and
/// the monitor does more than watch; it then asks once, logs the execution
/// with the reason of the schedule, and leaves nothing pending, so that
/// the next tick asks for nothing.
pub proof fn lemma_shutdown_runs_once(
    core: Core,
    settings: AppSettingsView,
    now_ms: u64,
    later_ms: u64,
    window_focused: bool,
)
    ensures
        shutdown_processed(core, settings, now_ms, window_focused).1.contains(
            Effect::ExecuteShutdown,
        ) <==> (!settings.monitor_only_mode && is_due(core.scheduler.pending, now_ms)),
        !settings.monitor_only_mode && is_due(core.scheduler.pending, now_ms) ==> {
            let after = shutdown_processed(core, settings, now_ms, window_focused);
            &&& after.0.scheduler.pending is None
            &&& after.1.contains(
                Effect::EventLogged(LogEntry::ShutdownExecution(core.scheduler.pending->0.reason)),
            )
            &&& shutdown_processed(after.0, settings, later_ms, window_focused).1.len() == 0
        },
{
    reveal(shutdown_processed);
    let after = shutdown_processed(core, settings, now_ms, window_focused);
    if !settings.monitor_only_mode && is_due(core.scheduler.pending, now_ms) {
        let n = after.1.len() as int;
        assert(after.1[n - 1] == Effect::ExecuteShutdown);
        assert(after.1[n - 2] == Effect::EventLogged(
            LogEntry::ShutdownExecution(core.scheduler.pending->0.reason),
        ));
    }
}

/// Loss of utility power, where the configuration asks for a shutdown on
/// it, leaves a shutdown pending: the one for the configured delay and
/// with the reason of loss of utility power, unless an earlier one was
/// pending already.
pub proof fn lemma_ac_fault_schedules_shutdown(
    core: Core,
    settings: AppSettingsView,
    notice: Notice,
    now_ms: u64,
    window_focused: bool,
)
    requires
        !settings.monitor_only_mode,
        settings.shutdown_pc.on_ac_fault.enabled,
    ensures
        alerted(core, settings, AlertKind::AcFault, notice, now_ms, window_focused).0.scheduler.pending
            == requested(
            core.scheduler.pending,
            now_ms,
            settings.shutdown_pc.on_ac_fault.delay_minutes,
            ShutdownReason::AcFault,
        ),
        core.scheduler.pending is None ==> alerted(
            core,
            settings,
            AlertKind::AcFault,
            notice,
            now_ms,
            window_focused,
        ).0.scheduler.pending == Some(
            ScheduledShutdown {
                deadline_ms: deadline_of(now_ms, settings.shutdown_pc.on_ac_fault.delay_minutes),
                reason: ShutdownReason::AcFault,
            },
        ),
        now_ms + clamped_delay(settings.shutdown_pc.on_ac_fault.delay_minutes) * 60_000
            <= u64::MAX ==> deadline_of(now_ms, settings.shutdown_pc.on_ac_fault.delay_minutes)
            == now_ms + clamped_delay(settings.shutdown_pc.on_ac_fault.delay_minutes) * 60_000,
{
    reveal(alerted);
}

/// Loss of utility power, where the configuration asks for a shutdown on
/// it and none is pending, schedules one and announces it: the deadline is
/// the configured delay from now, the reason is loss of utility power, and
/// the announcement, which is the last effect of the alert, names the
/// delay in minutes, brought into one minute to two hours. (The deadline
/// is now plus the delay where that fits 64 bits; beyond, it is held to
/// the largest value.)
pub proof fn lemma_ac_fault_announces_shutdown(
    core: Core,
    settings: AppSettingsView,
    notice: Notice,
    now_ms: u64,
    window_focused: bool,
)
    requires
        !settings.monitor_only_mode,
        settings.shutdown_pc.on_ac_fault.enabled,
        core.scheduler.pending is None,
        now_ms + clamped_delay(settings.shutdown_pc.on_ac_fault.delay_minutes) * 60_000
            <= u64::MAX,
    ensures
        MIN_DELAY_MINUTES <= settings.shutdown_pc.on_ac_fault.delay_minutes <= MAX_DELAY_MINUTES
            ==> clamped_delay(settings.shutdown_pc.on_ac_fault.delay_minutes)
            == settings.shutdown_pc.on_ac_fault.delay_minutes,
        ({
            let minutes = clamped_delay(settings.shutdown_pc.on_ac_fault.delay_minutes);
            let after = alerted(core, settings, AlertKind::AcFault, notice, now_ms, window_focused);
            &&& after.0.scheduler.pending == Some(
                ScheduledShutdown {
                    deadline_ms: (now_ms + minutes * 60_000) as u64,
                    reason: ShutdownReason::AcFault,
                },
            )
            &&& after.1.len() > 0
            &&& after.1.last() == Effect::EmitShutdownScheduled(
                ScheduleChange { minutes, deadline_ms: (now_ms + minutes * 60_000) as u64 },
            )
            &&& occurrences(after.1, after.1.last()) == 1
        }),
{
    reveal(alerted);
    let minutes = clamped_delay(settings.shutdown_pc.on_ac_fault.delay_minutes);
    let config = config_of(settings, AlertKind::AcFault);
    let a = alert_shown(core, settings.enable_notifications, config, notice, now_ms, window_focused);
    let b = alert_sounded(a.0, AlertKind::AcFault, config);
    let c = alert_scheduled(b.0, settings, AlertKind::AcFault, now_ms);
    let after = alerted(core, settings, AlertKind::AcFault, notice, now_ms, window_focused);
    let announced = Effect::EmitShutdownScheduled(
        ScheduleChange { minutes, deadline_ms: (now_ms + minutes * 60_000) as u64 },
    );
    assert(c.1 =~= seq![announced]);
    assert(after.1 =~= (a.1 + b.1) + seq![announced]);
    assert((a.1 + b.1 + seq![announced]).drop_last() =~= a.1 + b.1);
    assert forall|i: int| 0 <= i < (a.1 + b.1).len() implies (#[trigger] (a.1 + b.1)[i])
        != announced by {
    }
    lemma_absent_occurrences(a.1 + b.1, announced);
}

/// An effect that is none of the effects occurs among them no time.
pub proof fn lemma_absent_occurrences(effects: Seq<Effect>, effect: Effect)
    requires
        forall|i: int| 0 <= i < effects.len() ==> (#[trigger] effects[i]) != effect,
    ensures
        occurrences(effects, effect) == 0,
    decreases effects.len(),
{
    if effects.len() > 0 {
        assert(effects[effects.len() - 1] != effect);
        assert forall|i: int| 0 <= i < effects.drop_last().len() implies (
        #[trigger] effects.drop_last()[i]) != effect by {
            assert(effects.drop_last()[i] == effects[i]);
        }
        lemma_absent_occurrences(effects.drop_last(), effect);
    }
}

/// A reading that reports utility power, taken while the monitor is on
/// battery, leaves no shutdown pending, makes every sound token that was
/// handed out stale, stops the battery timer and clears the latches. Where
/// a shutdown was pending its cancellation is announced, once; no system
/// action is asked for. (The sound counter is one more than before, unless
/// it stood at its largest value, behind which it starts over.)
pub proof fn lemma_ac_return_cancels(
    core: Core,
    settings: AppSettingsView,
    status: UpsDataView,
    now_ms: u64,
    window_focused: bool,
)
    requires
        core.latches.is_on_battery,
        !status.status.utility_fail,
    ensures
        ({
            let after = status_handled(core, settings, status, now_ms, window_focused);
            &&& after.0.scheduler.pending is None
            &&& after.0.sound.generation == next_generation(core.sound.generation)
            &&& after.0.sound.generation != core.sound.generation
            &&& core.sound.generation < u64::MAX ==> after.0.sound.generation
                == core.sound.generation + 1
            &&& after.0.battery_start_ms is None
            &&& after.0.latches == (Latches {
                is_on_battery: false,
                was_battery_low: false,
                was_battery_critical: false,
            })
            &&& occurrences(after.1, Effect::EmitShutdownCancelled) == if core.scheduler.pending
                is Some {
                1nat
            } else {
                0nat
            }
            &&& occurrences(after.1, Effect::ExecuteShutdown) == 0
            &&& !after.1.contains(Effect::ExecuteShutdown)
        }),
{
    reveal(power_edges);
    reveal(alerts_dispatched);
    reveal(shutdown_processed);
    let t = transitions_of(core.latches, reading_of(status), thresholds_of(settings));
    let a = power_edges(core, settings.monitor_only_mode, t, now_ms);
    let b = alerts_dispatched(a.0, settings, t, status, now_ms, window_focused);
    let c = shutdown_processed(b.0, settings, now_ms, window_focused);
    let d = reading_recorded(c.0, settings, reading_of(status), now_ms);
    let after = status_handled(core, settings, status, now_ms, window_focused);
    assert(b == (a.0, Seq::<Effect>::empty()));
    assert(c == (a.0, Seq::<Effect>::empty()));
    let l = logged(settings.monitor_only_mode, LogEntry::NormalAc);
    let k = cancelled(core, true).1;
    assert(a.1 =~= l + k);
    assert(after.1 =~= l + k + d.1);
    assert forall|i: int| 0 <= i < after.1.len() implies (#[trigger] after.1[i])
        != Effect::ExecuteShutdown by {
    }
    lemma_absent_occurrences(after.1, Effect::ExecuteShutdown);
    let e = Effect::EmitShutdownCancelled;
    lemma_occurrences_concat(l + k, d.1, e);
    lemma_occurrences_concat(l, k, e);
    assert forall|i: int| 0 <= i < l.len() implies (#[trigger] l[i]) != e by {
    }
    assert forall|i: int| 0 <= i < d.1.len() implies (#[trigger] d.1[i]) != e by {
    }
    lemma_absent_occurrences(l, e);
    lemma_absent_occurrences(d.1, e);
    lemma_occurrences_one(e, e);
}

/// Two popups that are forced on the user are at least six seconds apart,
/// and none is forced while the main window is visible and has the focus.
pub proof fn lemma_popups_are_throttled(
    popup: PopupThrottle,
    now_ms: u64,
    window_focused: bool,
    later_ms: u64,
    later_focused: bool,
)
    requires
        may_force_popup(popup, now_ms, window_focused),
        may_force_popup(popup_after(popup, now_ms, window_focused), later_ms, later_focused),
    ensures
        later_ms >= now_ms + POPUP_THROTTLE_MS,
        !window_focused,
        !later_focused,
{
}

/// What a monitor that only watches may still do: hand the reading on,
/// store it, and say that a shutdown was cancelled.
pub open spec fn is_passive(effect: Effect) -> bool {
    effect is EmitUpsData || effect is DataPointLogged || effect is EmitShutdownCancelled
}

/// Every one of the effects is passive.
pub open spec fn all_passive(effects: Seq<Effect>) -> bool {
    forall|i: int| 0 <= i < effects.len() ==> is_passive(#[trigger] effects[i])
}

/// With a normalised configuration the reading is not even stored in
/// monitor-only mode: all that is left is to hand it on, and to say that a
/// shutdown was cancelled when utility power returns.
pub proof fn lemma_monitor_only_stores_nothing(
    core: Core,
    settings: AppSettingsView,
    status: UpsDataView,
    now_ms: u64,
    window_focused: bool,
)
    requires
        settings.monitor_only_mode,
        is_normalized(settings),
    ensures
        !status_handled(core, settings, status, now_ms, window_focused).1.contains(
            Effect::DataPointLogged,
        ),
        status_handled(core, settings, status, now_ms, window_focused).0.last_data_save_ms
            == core.last_data_save_ms,
{
    reveal(power_edges);
    reveal(alerts_dispatched);
    reveal(alerted);
    reveal(shutdown_processed);
    let t = transitions_of(core.latches, reading_of(status), thresholds_of(settings));
    let a = power_edges(core, true, t, now_ms);
    let b = alerts_dispatched(a.0, settings, t, status, now_ms, window_focused);
    let c = shutdown_processed(b.0, settings, now_ms, window_focused);
    let d = reading_recorded(c.0, settings, reading_of(status), now_ms);
    let all = status_handled(core, settings, status, now_ms, window_focused).1;
    assert(b == (a.0, Seq::<Effect>::empty()));
    assert(c == (a.0, Seq::<Effect>::empty()));
    assert(all =~= a.1 + d.1);
    assert(d.1 =~= seq![Effect::EmitUpsData]);
    assert forall|i: int| 0 <= i < all.len() implies all[i] != Effect::DataPointLogged by {
        if i < a.1.len() {
            assert(all[i] == a.1[i]);
        }
    }
}

/// In monitor-only mode a reading sets off no alert, no sound, no
/// shutdown and no entry in the event history, whatever else the
/// configuration says; and nothing is scheduled by it.
pub proof fn lemma_monitor_only_is_passive(
    core: Core,
    settings: AppSettingsView,
    status: UpsDataView,
    now_ms: u64,
    window_focused: bool,
)
    requires
        settings.monitor_only_mode,
    ensures
        all_passive(status_handled(core, settings, status, now_ms, window_focused).1),
        status_handled(core, settings, status, now_ms, window_focused).0.scheduler.pending is Some
            ==> core.scheduler.pending is Some,
{
    reveal(power_edges);
    reveal(alerts_dispatched);
    reveal(alerted);
    reveal(shutdown_processed);
    let t = transitions_of(core.latches, reading_of(status), thresholds_of(settings));
    let a = power_edges(core, true, t, now_ms);
    let b = alerts_dispatched(a.0, settings, t, status, now_ms, window_focused);
    let c = shutdown_processed(b.0, settings, now_ms, window_focused);
    let d = reading_recorded(c.0, settings, reading_of(status), now_ms);
    assert(b == (a.0, Seq::<Effect>::empty()));
    assert(c == (a.0, Seq::<Effect>::empty()));
    assert(all_passive(a.1));
    assert(all_passive(d.1));
    assert(status_handled(core, settings, status, now_ms, window_focused).1 =~= a.1 + d.1);
}

/// How often an effect occurs among effects.
pub open spec fn occurrences(effects: Seq<Effect>, effect: Effect) -> nat
    decreases effects.len(),
{
    if effects.len() == 0 {
        0
    } else {
        occurrences(effects.drop_last(), effect) + if effects.last() == effect {
            1nat
        } else {
            0nat
        }
    }
}

/// Occurrences add up over effects put together.
pub proof fn lemma_occurrences_concat(first: Seq<Effect>, second: Seq<Effect>, effect: Effect)
    ensures
        occurrences(first + second, effect) == occurrences(first, effect) + occurrences(
            second,
            effect,
        ),
    decreases second.len(),
{
    if second.len() == 0 {
        assert(first + second =~= first);
    } else {
        assert((first + second).drop_last() =~= first + second.drop_last());
        lemma_occurrences_concat(first, second.drop_last(), effect);
    }
}

/// One effect holds one occurrence of itself and none of any other.
pub proof fn lemma_occurrences_one(single: Effect, effect: Effect)
    ensures
        occurrences(seq![single], effect) == if single == effect {
            1nat
        } else {
            0nat
        },
        occurrences(Seq::<Effect>::empty(), effect) == 0,
{
    assert(seq![single].drop_last() =~= Seq::<Effect>::empty());
    assert(occurrences(seq![single].drop_last(), effect) == 0);
}

/// Effects that name no event hold no occurrence of a written event.
pub proof fn lemma_quiet_occurrences(effects: Seq<Effect>, entry: LogEntry)
    requires
        no_logs(effects),
    ensures
        occurrences(effects, Effect::EventLogged(entry)) == 0,
    decreases effects.len(),
{
    if effects.len() > 0 {
        assert(!(effects[effects.len() - 1] is EventLogged));
        assert forall|i: int| 0 <= i < effects.drop_last().len() implies !((
        #[trigger] effects.drop_last()[i]) is EventLogged) by {
            assert(effects.drop_last()[i] == effects[i]);
        }
        lemma_quiet_occurrences(effects.drop_last(), entry);
    }
}

/// The engine is the state machine at work: a reading moves the latches as
/// `latches_after` says, and, unless the monitor only watches, each edge
/// that `transitions_of` finds is logged exactly once and an edge that it
/// does not find is not logged at all.
pub proof fn lemma_edges_are_logged_once(
    core: Core,
    settings: AppSettingsView,
    status: UpsDataView,
    now_ms: u64,
    window_focused: bool,
)
    ensures
        ({
            let t = transitions_of(core.latches, reading_of(status), thresholds_of(settings));
            let after = status_handled(core, settings, status, now_ms, window_focused);
            let once = |fired: bool|
                if fired && !settings.monitor_only_mode {
                    1nat
                } else {
                    0nat
                };
            &&& after.0.latches == latches_after(
                core.latches,
                reading_of(status),
                thresholds_of(settings),
            )
            &&& occurrences(after.1, Effect::EventLogged(LogEntry::AcFault)) == once(
                t.ac_fault_entered,
            )
            &&& occurrences(after.1, Effect::EventLogged(LogEntry::NormalAc)) == once(
                t.ac_fault_cleared,
            )
            &&& occurrences(after.1, Effect::EventLogged(LogEntry::BatteryLow)) == once(
                t.battery_low_entered,
            )
            &&& occurrences(after.1, Effect::EventLogged(LogEntry::BatteryCritical)) == once(
                t.battery_critical_entered,
            )
        }),
{
    let t = transitions_of(core.latches, reading_of(status), thresholds_of(settings));
    let mo = settings.monitor_only_mode;
    let a = power_edges(core, mo, t, now_ms);
    let b = alerts_dispatched(a.0, settings, t, status, now_ms, window_focused);
    let c = shutdown_processed(b.0, settings, now_ms, window_focused);
    let d = reading_recorded(c.0, settings, reading_of(status), now_ms);
    let after = status_handled(core, settings, status, now_ms, window_focused);
    lemma_reaction_frame(core, settings, t, status, now_ms, window_focused);
    lemma_alerts_quiet(a.0, settings, t, status, now_ms, window_focused);
    assert(after.1 =~= a.1 + b.1 + c.1 + d.1);
    assert forall|entry: LogEntry| !(entry is ShutdownExecution) implies #[trigger] occurrences(
        after.1,
        Effect::EventLogged(entry),
    ) == occurrences(a.1, Effect::EventLogged(entry)) by {
        let e = Effect::EventLogged(entry);
        lemma_occurrences_concat(a.1 + b.1 + c.1, d.1, e);
        lemma_occurrences_concat(a.1 + b.1, c.1, e);
        lemma_occurrences_concat(a.1, b.1, e);
        lemma_quiet_occurrences(b.1, entry);
        assert(no_logs(d.1));
        lemma_quiet_occurrences(d.1, entry);
        lemma_shutdown_logs_only_itself(b.0, settings, now_ms, window_focused, entry);
    }
    lemma_power_edges_logged(core, mo, t, now_ms);
}

/// The tick logs nothing but the execution of a shutdown.
pub proof fn lemma_shutdown_logs_only_itself(
    core: Core,
    settings: AppSettingsView,
    now_ms: u64,
    window_focused: bool,
    entry: LogEntry,
)
    requires
        !(entry is ShutdownExecution),
    ensures
        occurrences(
            shutdown_processed(core, settings, now_ms, window_focused).1,
            Effect::EventLogged(entry),
        ) == 0,
{
    reveal(shutdown_processed);
    let e = Effect::EventLogged(entry);
    if !settings.monitor_only_mode && is_due(core.scheduler.pending, now_ms) {
        let reason = core.scheduler.pending->0.reason;
        let notice = Notice::ShutdownExecution { reason };
        let head = seq![Effect::Notify(notice)] + only_if(
            may_force_popup(core.popup, now_ms, window_focused),
            seq![Effect::ForcePopup(notice)],
        );
        let tail = seq![
            Effect::UrgentAlert(notice),
            Effect::EventLogged(LogEntry::ShutdownExecution(reason)),
            Effect::ExecuteShutdown,
        ];
        assert(no_logs(head));
        lemma_quiet_occurrences(head, entry);
        lemma_occurrences_concat(head, tail, e);
        let logged_one = seq![Effect::EventLogged(LogEntry::ShutdownExecution(reason))];
        assert(tail =~= seq![Effect::UrgentAlert(notice)] + logged_one
            + seq![Effect::ExecuteShutdown]);
        lemma_occurrences_concat(
            seq![Effect::UrgentAlert(notice)] + logged_one,
            seq![Effect::ExecuteShutdown],
            e,
        );
        lemma_occurrences_concat(seq![Effect::UrgentAlert(notice)], logged_one, e);
        lemma_occurrences_one(Effect::UrgentAlert(notice), e);
        lemma_occurrences_one(Effect::EventLogged(LogEntry::ShutdownExecution(reason)), e);
        lemma_occurrences_one(Effect::ExecuteShutdown, e);
    }
}

/// Each edge is logged once where it fired, unless the monitor only
/// watches.
pub proof fn lemma_power_edges_logged(core: Core, monitor_only_mode: bool, t: Transitions, now_ms: u64)
    ensures
        ({
            let effects = power_edges(core, monitor_only_mode, t, now_ms).1;
            let once = |fired: bool|
                if fired && !monitor_only_mode {
                    1nat
                } else {
                    0nat
                };
            &&& occurrences(effects, Effect::EventLogged(LogEntry::AcFault)) == once(
                t.ac_fault_entered,
            )
            &&& occurrences(effects, Effect::EventLogged(LogEntry::NormalAc)) == once(
                t.ac_fault_cleared,
            )
            &&& occurrences(effects, Effect::EventLogged(LogEntry::BatteryLow)) == once(
                t.battery_low_entered,
            )
            &&& occurrences(effects, Effect::EventLogged(LogEntry::BatteryCritical)) == once(
                t.battery_critical_entered,
            )
        }),
{
    reveal(power_edges);
    let mo = monitor_only_mode;
    let e1 = only_if(t.ac_fault_entered, logged(mo, LogEntry::AcFault));
    let l2 = logged(mo, LogEntry::NormalAc);
    let c2 = cancelled(ac_fault_noted(core, mo, t.ac_fault_entered, now_ms).0, true).1;
    let e2 = only_if(t.ac_fault_cleared, l2 + c2);
    let e3 = only_if(t.battery_low_entered, logged(mo, LogEntry::BatteryLow));
    let e4 = only_if(t.battery_critical_entered, logged(mo, LogEntry::BatteryCritical));
    let all = power_edges(core, mo, t, now_ms).1;
    assert(all =~= e1 + e2 + e3 + e4);
    assert forall|entry: LogEntry| #[trigger]
        occurrences(all, Effect::EventLogged(entry)) == occurrences(
            e1,
            Effect::EventLogged(entry),
        ) + occurrences(e2, Effect::EventLogged(entry)) + occurrences(
            e3,
            Effect::EventLogged(entry),
        ) + occurrences(e4, Effect::EventLogged(entry)) by {
        let e = Effect::EventLogged(entry);
        lemma_occurrences_concat(e1 + e2 + e3, e4, e);
        lemma_occurrences_concat(e1 + e2, e3, e);
        lemma_occurrences_concat(e1, e2, e);
    }
    assert forall|entry: LogEntry, other: LogEntry| #[trigger]
        occurrences(logged(mo, other), Effect::EventLogged(entry)) == if entry == other && !mo {
            1nat
        } else {
            0nat
        } by {
        lemma_occurrences_one(Effect::EventLogged(other), Effect::EventLogged(entry));
    }
    assert forall|entry: LogEntry| #[trigger]
        occurrences(e2, Effect::EventLogged(entry)) == if t.ac_fault_cleared && entry
            == LogEntry::NormalAc && !mo {
            1nat
        } else {
            0nat
        } by {
        if t.ac_fault_cleared {
            assert(no_logs(c2));
            lemma_quiet_occurrences(c2, entry);
            lemma_occurrences_concat(l2, c2, Effect::EventLogged(entry));
        }
    }
}

} // verus!
