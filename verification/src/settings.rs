//! The configuration of the monitor and its normalisation.
//!
//! A configuration may come from anywhere (a file, a user interface), so
//! nothing is assumed of it: `AppSettings::normalize` brings every number
//! into its range, keeps the critical threshold at or below the low one and,
//! in monitor-only mode, switches every side effect off.

use crate::text::str_eq;
use vstd::prelude::*;
use vstd::string::*;

verus! {

/// What one kind of alert does when it fires.
#[derive(Clone, Copy, Debug, PartialEq, Eq)]
pub struct AlertConfig {
    pub play_sound: bool,
    pub show_popup: bool,
    pub sound_repeats: u64,
}

/// Whether loss of utility power shuts the host down, and after how many
/// minutes.
#[derive(Clone, Copy, Debug, PartialEq, Eq)]
pub struct ShutdownOnAcFault {
    pub enabled: bool,
    pub delay_minutes: u64,
}

/// Whether a condition shuts the host down.
#[derive(Clone, Copy, Debug, PartialEq, Eq)]
pub struct ShutdownToggle {
    pub enabled: bool,
}

/// When and how the host is shut down. `action` is `"shutdown"` or
/// `"sleep"` once normalised.
#[derive(Clone, Debug, PartialEq, Eq)]
pub struct ShutdownPCSettings {
    pub on_ac_fault: ShutdownOnAcFault,
    pub on_battery_low: ShutdownToggle,
    pub on_battery_critical: ShutdownToggle,
    pub auto_save_files: bool,
    pub shutdown_command: String,
    pub action: String,
}

/// Whether the UPS is switched off behind the host, and after how many
/// minutes.
#[derive(Clone, Copy, Debug, PartialEq, Eq)]
pub struct UpsControlSettings {
    pub shutdown_ups_after_pc: bool,
    pub ups_shutdown_delay: u64,
}

/// What each kind of alert does.
#[derive(Clone, Copy, Debug, PartialEq, Eq)]
pub struct AlertSettings {
    pub ac_fault: AlertConfig,
    pub battery_low: AlertConfig,
    pub battery_critical: AlertConfig,
}

/// The whole configuration. Thresholds are in percent of charge, the
/// polling interval in milliseconds, the history interval in seconds.
#[derive(Clone, Debug, PartialEq, Eq)]
pub struct AppSettings {
    pub start_with_windows: bool,
    pub start_minimized: bool,
    pub monitor_only_mode: bool,
    pub polling_interval: u64,
    pub enable_notifications: bool,
    pub alerts: AlertSettings,
    pub shutdown_pc: ShutdownPCSettings,
    pub ups_control: UpsControlSettings,
    pub save_history: bool,
    pub history_interval: u64,
    pub low_battery_threshold: u64,
    pub critical_battery_threshold: u64,
    pub custom_sounds_path: Option<String>,
}

/// A `ShutdownPCSettings` with its texts as character sequences.
pub struct ShutdownPCSettingsView {
    pub on_ac_fault: ShutdownOnAcFault,
    pub on_battery_low: ShutdownToggle,
    pub on_battery_critical: ShutdownToggle,
    pub auto_save_files: bool,
    pub shutdown_command: Seq<char>,
    pub action: Seq<char>,
}

impl View for ShutdownPCSettings {
    type V = ShutdownPCSettingsView;

    open spec fn view(&self) -> ShutdownPCSettingsView {
        ShutdownPCSettingsView {
            on_ac_fault: self.on_ac_fault,
            on_battery_low: self.on_battery_low,
            on_battery_critical: self.on_battery_critical,
            auto_save_files: self.auto_save_files,
            shutdown_command: self.shutdown_command@,
            action: self.action@,
        }
    }
}

/// An `AppSettings` with its texts as character sequences.
pub struct AppSettingsView {
    pub start_with_windows: bool,
    pub start_minimized: bool,
    pub monitor_only_mode: bool,
    pub polling_interval: u64,
    pub enable_notifications: bool,
    pub alerts: AlertSettings,
    pub shutdown_pc: ShutdownPCSettingsView,
    pub ups_control: UpsControlSettings,
    pub save_history: bool,
    pub history_interval: u64,
    pub low_battery_threshold: u64,
    pub critical_battery_threshold: u64,
    pub custom_sounds_path: Option<Seq<char>>,
}

/// The path of an optional text, as characters.
pub open spec fn opt_text(t: Option<String>) -> Option<Seq<char>> {
    match t {
        Some(s) => Some(s@),
        None => None,
    }
}

impl View for AppSettings {
    type V = AppSettingsView;

    open spec fn view(&self) -> AppSettingsView {
        AppSettingsView {
            start_with_windows: self.start_with_windows,
            start_minimized: self.start_minimized,
            monitor_only_mode: self.monitor_only_mode,
            polling_interval: self.polling_interval,
            enable_notifications: self.enable_notifications,
            alerts: self.alerts,
            shutdown_pc: self.shutdown_pc@,
            ups_control: self.ups_control,
            save_history: self.save_history,
            history_interval: self.history_interval,
            low_battery_threshold: self.low_battery_threshold,
            critical_battery_threshold: self.critical_battery_threshold,
            custom_sounds_path: opt_text(self.custom_sounds_path),
        }
    }
}

/// `value` brought into `[min, max]`; zero, which stands for "not set",
/// gives `fallback`. With `min > max` the upper bound wins.
pub open spec fn clamped(value: u64, min: u64, max: u64, fallback: u64) -> u64 {
    if value == 0 {
        fallback
    } else if value > max || min > max {
        max
    } else if value < min {
        min
    } else {
        value
    }
}

/// Brings a number into `[min, max]`; zero gives `fallback`.
pub fn clamp_u64(value: u64, min: u64, max: u64, fallback: u64) -> (r: u64)
    ensures
        r == clamped(value, min, max, fallback),
{
    if value == 0 {
        return fallback;
    }
    let lifted = if value < min {
        min
    } else {
        value
    };
    if lifted > max {
        max
    } else {
        lifted
    }
}

/// The configuration a fresh installation starts with.
pub open spec fn default_settings() -> AppSettingsView {
    AppSettingsView {
        start_with_windows: false,
        start_minimized: false,
        monitor_only_mode: false,
        polling_interval: 1000,
        enable_notifications: true,
        alerts: AlertSettings {
            ac_fault: AlertConfig { play_sound: true, show_popup: true, sound_repeats: 3 },
            battery_low: AlertConfig { play_sound: true, show_popup: true, sound_repeats: 5 },
            battery_critical: AlertConfig { play_sound: true, show_popup: true, sound_repeats: 10 },
        },
        shutdown_pc: ShutdownPCSettingsView {
            on_ac_fault: ShutdownOnAcFault { enabled: true, delay_minutes: 18 },
            on_battery_low: ShutdownToggle { enabled: false },
            on_battery_critical: ShutdownToggle { enabled: true },
            auto_save_files: true,
            shutdown_command: Seq::<char>::empty(),
            action: "shutdown"@,
        },
        ups_control: UpsControlSettings { shutdown_ups_after_pc: true, ups_shutdown_delay: 2 },
        save_history: true,
        history_interval: 300,
        low_battery_threshold: 20,
        critical_battery_threshold: 10,
        custom_sounds_path: None,
    }
}

impl Default for AppSettings {
    fn default() -> (r: Self)
        ensures
            r@ == default_settings(),
    {
        AppSettings {
            start_with_windows: false,
            start_minimized: false,
            monitor_only_mode: false,
            polling_interval: 1000,
            enable_notifications: true,
            alerts: AlertSettings {
                ac_fault: AlertConfig { play_sound: true, show_popup: true, sound_repeats: 3 },
                battery_low: AlertConfig { play_sound: true, show_popup: true, sound_repeats: 5 },
                battery_critical: AlertConfig {
                    play_sound: true,
                    show_popup: true,
                    sound_repeats: 10,
                },
            },
            shutdown_pc: ShutdownPCSettings {
                on_ac_fault: ShutdownOnAcFault { enabled: true, delay_minutes: 18 },
                on_battery_low: ShutdownToggle { enabled: false },
                on_battery_critical: ShutdownToggle { enabled: true },
                auto_save_files: true,
                shutdown_command: String::new(),
                action: "shutdown".to_string(),
            },
            ups_control: UpsControlSettings { shutdown_ups_after_pc: true, ups_shutdown_delay: 2 },
            save_history: true,
            history_interval: 300,
            low_battery_threshold: 20,
            critical_battery_threshold: 10,
            custom_sounds_path: None,
        }
    }
}

/// `c` with sound and popup switched off.
pub open spec fn silenced(c: AlertConfig) -> AlertConfig {
    AlertConfig { play_sound: false, show_popup: false, ..c }
}

/// `s` with every side effect switched off: no notification, sound or
/// popup, no automatic shutdown, no custom command, no history.
pub open spec fn monitor_only_defaults(s: AppSettingsView) -> AppSettingsView {
    AppSettingsView {
        enable_notifications: false,
        alerts: AlertSettings {
            ac_fault: silenced(s.alerts.ac_fault),
            battery_low: silenced(s.alerts.battery_low),
            battery_critical: silenced(s.alerts.battery_critical),
        },
        shutdown_pc: ShutdownPCSettingsView {
            on_ac_fault: ShutdownOnAcFault { enabled: false, ..s.shutdown_pc.on_ac_fault },
            on_battery_low: ShutdownToggle { enabled: false },
            on_battery_critical: ShutdownToggle { enabled: false },
            auto_save_files: false,
            shutdown_command: Seq::<char>::empty(),
            ..s.shutdown_pc
        },
        ups_control: UpsControlSettings { shutdown_ups_after_pc: false, ..s.ups_control },
        save_history: false,
        ..s
    }
}

/// The smaller of two numbers.
pub open spec fn min_u64(a: u64, b: u64) -> u64 {
    if a <= b {
        a
    } else {
        b
    }
}

/// The action a configuration names: what it says if that is one of the
/// two known actions, else `"shutdown"`.
pub open spec fn normalized_action(action: Seq<char>) -> Seq<char> {
    if action == "shutdown"@ || action == "sleep"@ {
        action
    } else {
        "shutdown"@
    }
}

/// The alert settings with every repeat count in `[1, 30]`.
pub open spec fn ranged_alerts(a: AlertSettings) -> AlertSettings {
    AlertSettings {
        ac_fault: AlertConfig {
            sound_repeats: clamped(a.ac_fault.sound_repeats, 1, 30, 3),
            ..a.ac_fault
        },
        battery_low: AlertConfig {
            sound_repeats: clamped(a.battery_low.sound_repeats, 1, 30, 5),
            ..a.battery_low
        },
        battery_critical: AlertConfig {
            sound_repeats: clamped(a.battery_critical.sound_repeats, 1, 30, 10),
            ..a.battery_critical
        },
    }
}

/// The shutdown settings with the delay in `[1, 60]` minutes and a known
/// action.
pub open spec fn ranged_shutdown_pc(p: ShutdownPCSettingsView) -> ShutdownPCSettingsView {
    ShutdownPCSettingsView {
        on_ac_fault: ShutdownOnAcFault {
            delay_minutes: clamped(p.on_ac_fault.delay_minutes, 1, 60, 18),
            ..p.on_ac_fault
        },
        action: normalized_action(p.action),
        ..p
    }
}

/// The UPS control settings with the delay in `[1, 10]`.
pub open spec fn ranged_ups_control(u: UpsControlSettings) -> UpsControlSettings {
    UpsControlSettings { ups_shutdown_delay: clamped(u.ups_shutdown_delay, 1, 10, 2), ..u }
}

/// `s` with every number in its range, the critical threshold at or below
/// the low one, and a known action.
pub open spec fn ranged(s: AppSettingsView) -> AppSettingsView {
    let low = clamped(s.low_battery_threshold, 5, 50, 20);
    AppSettingsView {
        polling_interval: clamped(s.polling_interval, 500, 10_000, 1000),
        history_interval: clamped(s.history_interval, 60, 3600, 300),
        low_battery_threshold: low,
        critical_battery_threshold: min_u64(clamped(s.critical_battery_threshold, 5, 30, 10), low),
        alerts: ranged_alerts(s.alerts),
        shutdown_pc: ranged_shutdown_pc(s.shutdown_pc),
        ups_control: ranged_ups_control(s.ups_control),
        ..s
    }
}

/// The form the monitor works with: `ranged`, and in monitor-only mode
/// every side effect off.
pub open spec fn normalized(s: AppSettingsView) -> AppSettingsView {
    if s.monitor_only_mode {
        monitor_only_defaults(ranged(s))
    } else {
        ranged(s)
    }
}

/// What holds of every normalised configuration.
pub open spec fn is_normalized(s: AppSettingsView) -> bool {
    &&& is_ranged(s)
    &&& s.monitor_only_mode ==> is_silent(s)
}

/// No alert, sound, popup, automatic shutdown or history is enabled.
pub open spec fn is_silent(s: AppSettingsView) -> bool {
    &&& !s.enable_notifications
    &&& !s.alerts.ac_fault.play_sound && !s.alerts.ac_fault.show_popup
    &&& !s.alerts.battery_low.play_sound && !s.alerts.battery_low.show_popup
    &&& !s.alerts.battery_critical.play_sound && !s.alerts.battery_critical.show_popup
    &&& !s.shutdown_pc.on_ac_fault.enabled
    &&& !s.shutdown_pc.on_battery_low.enabled
    &&& !s.shutdown_pc.on_battery_critical.enabled
    &&& !s.shutdown_pc.auto_save_files
    &&& s.shutdown_pc.shutdown_command.len() == 0
    &&& !s.ups_control.shutdown_ups_after_pc
    &&& !s.save_history
}

/// A clamped number lies in its range when the fallback does, and
/// clamping it again changes nothing.
pub proof fn lemma_clamped(value: u64, min: u64, max: u64, fallback: u64)
    requires
        1 <= min <= fallback <= max,
    ensures
        min <= clamped(value, min, max, fallback) <= max,
        clamped(clamped(value, min, max, fallback), min, max, fallback) == clamped(
            value,
            min,
            max,
            fallback,
        ),
{
}

/// What holds of the numbers and the action of a normalised configuration.
pub open spec fn is_ranged(s: AppSettingsView) -> bool {
    &&& 500 <= s.polling_interval <= 10_000
    &&& 60 <= s.history_interval <= 3600
    &&& 5 <= s.low_battery_threshold <= 50
    &&& 5 <= s.critical_battery_threshold <= 30
    &&& s.critical_battery_threshold <= s.low_battery_threshold
    &&& 1 <= s.alerts.ac_fault.sound_repeats <= 30
    &&& 1 <= s.alerts.battery_low.sound_repeats <= 30
    &&& 1 <= s.alerts.battery_critical.sound_repeats <= 30
    &&& 1 <= s.shutdown_pc.on_ac_fault.delay_minutes <= 60
    &&& 1 <= s.ups_control.ups_shutdown_delay <= 10
    &&& (s.shutdown_pc.action == "shutdown"@ || s.shutdown_pc.action == "sleep"@)
}

/// Ranging establishes `is_ranged`, and a ranged configuration is left as
/// it is.
pub proof fn lemma_ranged_holds(s: AppSettingsView)
    ensures
        is_ranged(ranged(s)),
        ranged(ranged(s)) == ranged(s),
{
    lemma_clamped(s.polling_interval, 500, 10_000, 1000);
    lemma_clamped(s.history_interval, 60, 3600, 300);
    lemma_clamped(s.low_battery_threshold, 5, 50, 20);
    lemma_clamped(s.critical_battery_threshold, 5, 30, 10);
    lemma_clamped(s.alerts.ac_fault.sound_repeats, 1, 30, 3);
    lemma_clamped(s.alerts.battery_low.sound_repeats, 1, 30, 5);
    lemma_clamped(s.alerts.battery_critical.sound_repeats, 1, 30, 10);
    lemma_clamped(s.shutdown_pc.on_ac_fault.delay_minutes, 1, 60, 18);
    lemma_clamped(s.ups_control.ups_shutdown_delay, 1, 10, 2);
    let n = ranged(s);
    let m = ranged(n);
    assert(m.critical_battery_threshold == n.critical_battery_threshold);
    assert(m.alerts == n.alerts);
    assert(m.shutdown_pc.action == n.shutdown_pc.action);
    assert(m.shutdown_pc == n.shutdown_pc);
    assert(m.ups_control == n.ups_control);
}

/// Normalising establishes `is_normalized`, whatever the input, and a
/// normalised configuration is left as it is.
pub proof fn lemma_normalized_holds(s: AppSettingsView)
    ensures
        is_normalized(normalized(s)),
        normalized(normalized(s)) == normalized(s),
{
    lemma_ranged_holds(s);
    let r = ranged(s);
    if s.monitor_only_mode {
        let n = monitor_only_defaults(r);
        lemma_ranged_holds(n);
        assert(ranged(n).alerts == n.alerts);
        assert(ranged(n).shutdown_pc == n.shutdown_pc);
        assert(ranged(n).ups_control == n.ups_control);
        assert(ranged(n) == n);
        assert(monitor_only_defaults(n).alerts == n.alerts);
        assert(monitor_only_defaults(n).shutdown_pc == n.shutdown_pc);
        assert(monitor_only_defaults(n) == n);
    }
}

/// The action a configuration names, or `"shutdown"` where it names none
/// that is known.
fn normalize_action(action: String) -> (r: String)
    ensures
        r@ == normalized_action(action@),
{
    if str_eq(action.as_str(), "shutdown") || str_eq(action.as_str(), "sleep") {
        action
    } else {
        "shutdown".to_string()
    }
}

fn clamp_alerts(a: AlertSettings) -> (r: AlertSettings)
    ensures
        r == ranged_alerts(a),
{
    AlertSettings {
        ac_fault: AlertConfig {
            play_sound: a.ac_fault.play_sound,
            show_popup: a.ac_fault.show_popup,
            sound_repeats: clamp_u64(a.ac_fault.sound_repeats, 1, 30, 3),
        },
        battery_low: AlertConfig {
            play_sound: a.battery_low.play_sound,
            show_popup: a.battery_low.show_popup,
            sound_repeats: clamp_u64(a.battery_low.sound_repeats, 1, 30, 5),
        },
        battery_critical: AlertConfig {
            play_sound: a.battery_critical.play_sound,
            show_popup: a.battery_critical.show_popup,
            sound_repeats: clamp_u64(a.battery_critical.sound_repeats, 1, 30, 10),
        },
    }
}

fn clamp_shutdown_pc(p: ShutdownPCSettings) -> (r: ShutdownPCSettings)
    ensures
        r@ == ranged_shutdown_pc(p@),
{
    ShutdownPCSettings {
        on_ac_fault: ShutdownOnAcFault {
            enabled: p.on_ac_fault.enabled,
            delay_minutes: clamp_u64(p.on_ac_fault.delay_minutes, 1, 60, 18),
        },
        on_battery_low: p.on_battery_low,
        on_battery_critical: p.on_battery_critical,
        auto_save_files: p.auto_save_files,
        shutdown_command: p.shutdown_command,
        action: normalize_action(p.action),
    }
}

fn clamp_ups_control(u: UpsControlSettings) -> (r: UpsControlSettings)
    ensures
        r == ranged_ups_control(u),
{
    UpsControlSettings {
        shutdown_ups_after_pc: u.shutdown_ups_after_pc,
        ups_shutdown_delay: clamp_u64(u.ups_shutdown_delay, 1, 10, 2),
    }
}

impl AppSettings {
    /// Switches every side effect off.
    pub fn apply_monitor_only_defaults(&mut self)
        ensures
            final(self)@ == monitor_only_defaults(old(self)@),
    {
        self.enable_notifications = false;
        self.alerts.ac_fault.play_sound = false;
        self.alerts.ac_fault.show_popup = false;
        self.alerts.battery_low.play_sound = false;
        self.alerts.battery_low.show_popup = false;
        self.alerts.battery_critical.play_sound = false;
        self.alerts.battery_critical.show_popup = false;

        self.shutdown_pc.on_ac_fault.enabled = false;
        self.shutdown_pc.on_battery_low.enabled = false;
        self.shutdown_pc.on_battery_critical.enabled = false;
        self.shutdown_pc.auto_save_files = false;
        self.shutdown_pc.shutdown_command = String::new();

        self.ups_control.shutdown_ups_after_pc = false;
        self.save_history = false;
    }

    /// Brings every number into its range and the action to a known one.
    fn clamp_ranges(self) -> (r: Self)
        ensures
            r@ == ranged(self@),
    {
        let low = clamp_u64(self.low_battery_threshold, 5, 50, 20);
        let critical = clamp_u64(self.critical_battery_threshold, 5, 30, 10);
        AppSettings {
            start_with_windows: self.start_with_windows,
            start_minimized: self.start_minimized,
            monitor_only_mode: self.monitor_only_mode,
            polling_interval: clamp_u64(self.polling_interval, 500, 10_000, 1000),
            enable_notifications: self.enable_notifications,
            alerts: clamp_alerts(self.alerts),
            shutdown_pc: clamp_shutdown_pc(self.shutdown_pc),
            ups_control: clamp_ups_control(self.ups_control),
            save_history: self.save_history,
            history_interval: clamp_u64(self.history_interval, 60, 3600, 300),
            low_battery_threshold: low,
            critical_battery_threshold: if critical <= low {
                critical
            } else {
                low
            },
            custom_sounds_path: self.custom_sounds_path,
        }
    }

    /// Brings the configuration into the form the monitor works with.
    pub fn normalize(self) -> (r: Self)
        ensures
            r@ == normalized(self@),
    {
        let mut s = self.clamp_ranges();
        if s.monitor_only_mode {
            s.apply_monitor_only_defaults();
        }
        s
    }
}

/// Sets the history interval from a request. Zero keeps the present
/// value; anything else is brought into one minute to one hour.
pub fn update_history_interval(settings: &mut AppSettings, seconds: u64)
    ensures
        final(settings)@ == (AppSettingsView {
            history_interval: clamped(seconds, 60, 3600, old(settings).history_interval),
            ..old(settings)@
        }),
{
    settings.history_interval = clamp_u64(seconds, 60, 3600, settings.history_interval);
}

/// Replaces the directory that is searched first for alert sounds.
pub fn set_custom_sounds_path(settings: &mut AppSettings, sound_path: Option<String>)
    ensures
        final(settings)@ == (AppSettingsView {
            custom_sounds_path: opt_text(sound_path),
            ..old(settings)@
        }),
{
    settings.custom_sounds_path = sound_path;
}

} // verus!
