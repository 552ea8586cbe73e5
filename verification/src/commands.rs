//! What the user can ask of the monitor: new settings, a shutdown by hand
//! or its cancellation, a rehearsal of the shutdown flow, sounds, and the
//! time spent on battery.

use crate::alert::{kind_of_name, sound_file_name_of, AlertKind};
use crate::monitor::{cancelled, only_if, scheduled, AppState, Core, Effect};
use crate::settings::{
    clamp_u64, clamped, normalized, opt_text, AlertConfig, AlertSettings, AppSettings,
    AppSettingsView,
};
use crate::shutdown::{
    clamped_delay, deadline_of, ScheduleChange, ScheduledShutdown, ShutdownReason,
    ShutdownScheduler,
};
use crate::sound::{clamp_repeats, clamped_repeats, next_generation, SoundPlayer};
use vstd::prelude::*;
use vstd::string::*;

verus! {

/// Delay of a rehearsed shutdown where the request names none.
pub const DEFAULT_SIMULATION_MINUTES: u64 = 5;

/// Time after which a rehearsed shutdown is cancelled where the request
/// names none.
pub const DEFAULT_AUTO_CANCEL_MS: u64 = 1_200;

/// The shortest time after which a rehearsed shutdown is cancelled.
pub const MIN_AUTO_CANCEL_MS: u64 = 100;

/// The pause between repetitions that the sound configuration reports.
pub const REPORTED_REPEAT_DELAY_MS: u64 = 2_500;

/// The repeat count that the sound configuration reports as default.
pub const REPORTED_DEFAULT_REPEATS: u64 = 3;

/// Why a request was turned down.
#[derive(Clone, Copy, Debug, PartialEq, Eq)]
pub enum CommandError {
    /// The monitor only watches: it schedules nothing.
    MonitorOnly,
}

impl CommandError {
    /// What the user is told.
    pub open spec fn text(self) -> Seq<char> {
        "Modo solo monitor activo"@
    }

    /// What the user is told.
    pub fn message(&self) -> (r: &'static str)
        ensures
            r@ == self.text(),
    {
        "Modo solo monitor activo"
    }
}

/// A rehearsal of the shutdown flow that has begun: whether the request
/// was scheduled (in the rehearsal's own scheduler it always is), the
/// delay and the deadline that were announced, and the time after which
/// `finish_shutdown_simulation` is to follow.
#[derive(Clone, Copy, Debug, PartialEq, Eq)]
pub struct ShutdownSimulation {
    pub scheduled: bool,
    pub minutes: u64,
    pub deadline_ms: u64,
    pub auto_cancel_ms: u64,
}

/// The configuration with the sounds silenced and the pending shutdown
/// dropped where the new settings say monitor-only; else unchanged.
pub open spec fn settings_applied(core: Core, monitor_only_mode: bool) -> Core {
    if monitor_only_mode {
        Core {
            sound: SoundPlayer { generation: next_generation(core.sound.generation) },
            scheduler: ShutdownScheduler { pending: None },
            ..core
        }
    } else {
        core
    }
}

/// The time to wait before a rehearsed shutdown is cancelled.
pub open spec fn auto_cancel_of(auto_cancel_ms: Option<u64>) -> u64 {
    let asked = match auto_cancel_ms {
        Some(ms) => ms,
        None => DEFAULT_AUTO_CANCEL_MS,
    };
    if asked < MIN_AUTO_CANCEL_MS {
        MIN_AUTO_CANCEL_MS
    } else {
        asked
    }
}

/// The delay of a rehearsed shutdown, before it is clamped.
pub open spec fn simulation_minutes(minutes: Option<u64>) -> u64 {
    match minutes {
        Some(m) => m,
        None => DEFAULT_SIMULATION_MINUTES,
    }
}

/// The time on battery in whole seconds; none on utility power.
pub open spec fn battery_time_of(battery_start_ms: Option<u64>, now_ms: u64) -> Option<u64> {
    match battery_start_ms {
        Some(start) => Some(
            if now_ms >= start {
                ((now_ms - start) / 1000) as u64
            } else {
                0
            },
        ),
        None => None,
    }
}

/// The kind of alert whose sound a request asks for; the critical one
/// where the name is none that is known.
pub open spec fn requested_kind(sound_type: Seq<char>) -> AlertKind {
    match kind_of_name(sound_type) {
        Some(kind) => kind,
        None => AlertKind::BatteryCritical,
    }
}

/// The repetitions of a sound on request: the count brought into 1 to 30,
/// and one where the request names none.
pub open spec fn requested_repeats(repeats: Option<u64>) -> u64 {
    match repeats {
        Some(r) => clamped_repeats(r),
        None => 1,
    }
}

impl AppState {
    /// Takes new settings: they are normalised and replace the old ones.
    /// Where they say monitor-only, every sound is silenced and the
    /// pending shutdown is cancelled.
    pub fn save_settings(&mut self, new_settings: AppSettings, effects: &mut Vec<Effect>)
        ensures
            final(self).settings@ == normalized(new_settings@),
            final(self).core == settings_applied(
                old(self).core,
                normalized(new_settings@).monitor_only_mode,
            ),
            final(effects)@ == old(effects)@ + only_if(
                normalized(new_settings@).monitor_only_mode,
                cancelled(old(self).core, true).1,
            ) + seq![Effect::SettingsChanged],
            final(self).events == old(self).events,
            final(self).data_history == old(self).data_history,
            final(self).last_status == old(self).last_status,
            final(self).device_info == old(self).device_info,
            final(self).last_error == old(self).last_error,
    {
        let normalized = new_settings.normalize();
        if normalized.monitor_only_mode {
            self.core.sound.stop();
            self.cancel_scheduled_shutdown(true, effects);
        } else {
            assert(effects@ =~= old(effects)@ + Seq::<Effect>::empty());
        }
        self.settings = normalized;
        effects.push(Effect::SettingsChanged);
        assert(effects@ =~= old(effects)@ + only_if(
            normalized@.monitor_only_mode,
            cancelled(old(self).core, true).1,
        ) + seq![Effect::SettingsChanged]);
    }

    /// Schedules a shutdown by hand. Turned down in monitor-only mode.
    pub fn trigger_shutdown(&mut self, minutes: u64, now_ms: u64, effects: &mut Vec<Effect>) -> (accepted:
        bool)
        ensures
            accepted == !old(self).settings.monitor_only_mode,
            !accepted ==> *final(self) == *old(self) && final(effects)@ == old(effects)@,
            accepted ==> final(self).keeps_records(*old(self)) && final(self).core == scheduled(
                old(self).core,
                now_ms,
                minutes,
                ShutdownReason::ManualTrigger,
            ).0 && final(effects)@ == old(effects)@ + scheduled(
                old(self).core,
                now_ms,
                minutes,
                ShutdownReason::ManualTrigger,
            ).1,
    {
        if self.settings.monitor_only_mode {
            return false;
        }
        self.schedule_shutdown_after_minutes(
            now_ms,
            minutes,
            ShutdownReason::ManualTrigger,
            effects,
        );
        true
    }

    /// Cancels the pending shutdown and announces it. The result says
    /// whether there was one.
    pub fn cancel_shutdown(&mut self, effects: &mut Vec<Effect>) -> (cancelled_one: bool)
        ensures
            final(self).keeps_records(*old(self)),
            final(self).core == cancelled(old(self).core, true).0,
            final(effects)@ == old(effects)@ + cancelled(old(self).core, true).1,
            cancelled_one == old(self).core.scheduler.pending is Some,
    {
        self.cancel_scheduled_shutdown(true, effects)
    }

    /// Rehearses the scheduling of a shutdown for the user interface: the
    /// request is made of a scheduler of the rehearsal's own, like any
    /// request is made of the real one, and announced. The real schedule
    /// is not touched, so that a rehearsal can neither shut the host down
    /// nor drop a shutdown that is pending. The caller lets
    /// `auto_cancel_ms` pass and then calls `finish_shutdown_simulation`.
    /// Turned down in monitor-only mode.
    pub fn simulate_shutdown_flow(
        &self,
        minutes: Option<u64>,
        auto_cancel_ms: Option<u64>,
        now_ms: u64,
        effects: &mut Vec<Effect>,
    ) -> (r: Result<ShutdownSimulation, CommandError>)
        ensures
            self.settings.monitor_only_mode ==> r == Err::<ShutdownSimulation, CommandError>(
                CommandError::MonitorOnly,
            ) && final(effects)@ == old(effects)@,
            !self.settings.monitor_only_mode ==> r == Ok::<ShutdownSimulation, CommandError>(
                ShutdownSimulation {
                    scheduled: true,
                    minutes: clamped_delay(simulation_minutes(minutes)),
                    deadline_ms: deadline_of(now_ms, simulation_minutes(minutes)),
                    auto_cancel_ms: auto_cancel_of(auto_cancel_ms),
                },
            ) && final(effects)@ == old(effects)@ + seq![
                Effect::EmitShutdownScheduled(
                    ScheduleChange {
                        minutes: clamped_delay(simulation_minutes(minutes)),
                        deadline_ms: deadline_of(now_ms, simulation_minutes(minutes)),
                    },
                ),
            ],
    {
        if self.settings.monitor_only_mode {
            return Err(CommandError::MonitorOnly);
        }
        let asked_minutes = match minutes {
            Some(m) => m,
            None => DEFAULT_SIMULATION_MINUTES,
        };
        let asked_cancel = match auto_cancel_ms {
            Some(ms) => ms,
            None => DEFAULT_AUTO_CANCEL_MS,
        };
        let cancel_after = if asked_cancel < MIN_AUTO_CANCEL_MS {
            MIN_AUTO_CANCEL_MS
        } else {
            asked_cancel
        };
        let mut rehearsal = ShutdownScheduler::new();
        let change = rehearsal.schedule_shutdown_after_minutes(
            now_ms,
            asked_minutes,
            ShutdownReason::Simulation,
        );
        let (scheduled, change) = match change {
            Some(change) => (true, change),
            None => (false, ScheduleChange { minutes: 0, deadline_ms: 0 }),
        };
        effects.push(Effect::EmitShutdownScheduled(change));
        assert(effects@ =~= old(effects)@ + seq![Effect::EmitShutdownScheduled(change)]);
        Ok(
            ShutdownSimulation {
                scheduled,
                minutes: change.minutes,
                deadline_ms: change.deadline_ms,
                auto_cancel_ms: cancel_after,
            },
        )
    }

    /// The time spent on battery, in whole seconds; none on utility power.
    pub fn get_battery_time(&self, now_ms: u64) -> (r: Option<u64>)
        ensures
            r == battery_time_of(self.core.battery_start_ms, now_ms),
    {
        match self.core.battery_start_ms {
            Some(start) => Some(now_ms.saturating_sub(start) / 1000),
            None => None,
        }
    }

    /// Starts the sound of an alert on request. A name that is none of an
    /// alert stands for the critical one; without a repeat count the
    /// sound plays once.
    pub fn play_sound(&mut self, sound_type: &str, repeats: Option<u64>, effects: &mut Vec<Effect>)
        ensures
            final(self).keeps_records(*old(self)),
            final(self).core == (Core {
                sound: SoundPlayer { generation: next_generation(old(self).core.sound.generation) },
                ..old(self).core
            }),
            final(effects)@ == old(effects)@ + seq![
                Effect::PlaySound {
                    kind: requested_kind(sound_type@),
                    generation: next_generation(old(self).core.sound.generation),
                    repeats: requested_repeats(repeats),
                },
            ],
    {
        let kind = match AlertKind::from_str(sound_type) {
            Some(kind) => kind,
            None => AlertKind::BatteryCritical,
        };
        let count = match repeats {
            Some(r) => clamp_repeats(r),
            None => 1,
        };
        let token = self.core.sound.play();
        effects.push(Effect::PlaySound { kind, generation: token, repeats: count });
        assert(effects@ =~= old(effects)@ + seq![
            Effect::PlaySound { kind, generation: token, repeats: count },
        ]);
    }
}

/// Ends a rehearsal: what the rehearsal scheduled is cancelled, in the
/// scheduler of the rehearsal's own, and the cancellation is announced. The
/// real schedule is not touched. The result says whether anything was
/// cancelled.
pub fn finish_shutdown_simulation(
    simulation: ShutdownSimulation,
    effects: &mut Vec<Effect>,
) -> (cancelled_one: bool)
    ensures
        cancelled_one == simulation.scheduled,
        final(effects)@ == old(effects)@ + only_if(
            simulation.scheduled,
            seq![Effect::EmitShutdownCancelled],
        ),
{
    let mut rehearsal = ShutdownScheduler {
        pending: if simulation.scheduled {
            Some(
                ScheduledShutdown {
                    deadline_ms: simulation.deadline_ms,
                    reason: ShutdownReason::Simulation,
                },
            )
        } else {
            None
        },
    };
    let cancelled_one = rehearsal.cancel_scheduled_shutdown();
    if cancelled_one {
        effects.push(Effect::EmitShutdownCancelled);
        assert(effects@ =~= old(effects)@ + seq![Effect::EmitShutdownCancelled]);
    } else {
        assert(effects@ =~= old(effects)@ + Seq::<Effect>::empty());
    }
    cancelled_one
}

// ---------------------------------------------------------------------
// The sound configuration
// ---------------------------------------------------------------------
/// How often each alert sound is repeated.
#[derive(Clone, Copy, Debug, PartialEq, Eq)]
pub struct SoundRepeatConfig {
    pub ac_fault: u64,
    pub battery_low: u64,
    pub critical: u64,
    pub default: u64,
}

/// The names of the alert sound files.
#[derive(Clone, Debug, PartialEq, Eq)]
pub struct SoundFiles {
    pub ac_fault: String,
    pub battery_low: String,
    pub critical: String,
}

/// The sound configuration as the user interface sees it.
#[derive(Clone, Debug, PartialEq, Eq)]
pub struct SoundConfig {
    pub repeat_config: SoundRepeatConfig,
    pub repeat_delay: u64,
    pub custom_sounds_path: Option<String>,
    pub sounds: SoundFiles,
}

/// A change of the repeat counts: every part is optional.
#[derive(Clone, Copy, Debug, PartialEq, Eq)]
pub struct RepeatConfigPatch {
    pub ac_fault: Option<u64>,
    pub battery_low: Option<u64>,
    pub critical: Option<u64>,
    pub default: Option<u64>,
}

/// A change of the sound configuration: every part is optional. For the
/// directory, `Some(None)` takes the directory away.
#[derive(Clone, Debug, PartialEq, Eq)]
pub struct SoundConfigPatch {
    pub repeat_config: Option<RepeatConfigPatch>,
    pub repeat_delay: Option<u64>,
    pub custom_sounds_path: Option<Option<String>>,
}

/// A repeat count after a change: the new value brought into 1 to 30,
/// the present one where the change names none or zero.
pub open spec fn patched_count(present: u64, change: Option<u64>) -> u64 {
    match change {
        Some(v) => clamped(v, 1, 30, present),
        None => present,
    }
}

/// `config` with another repeat count.
pub open spec fn with_repeats(config: AlertConfig, sound_repeats: u64) -> AlertConfig {
    AlertConfig { sound_repeats, ..config }
}

/// The alert settings after a change of the repeat counts. A default
/// sets all three counts first (zero leaves them at the count for loss of
/// utility power); then each count that the change names is set.
pub open spec fn patched_alerts(alerts: AlertSettings, patch: RepeatConfigPatch) -> AlertSettings {
    let base = match patch.default {
        Some(v) => {
            let d = clamped(v, 1, 30, alerts.ac_fault.sound_repeats);
            AlertSettings {
                ac_fault: with_repeats(alerts.ac_fault, d),
                battery_low: with_repeats(alerts.battery_low, d),
                battery_critical: with_repeats(alerts.battery_critical, d),
            }
        },
        None => alerts,
    };
    AlertSettings {
        ac_fault: with_repeats(
            base.ac_fault,
            patched_count(base.ac_fault.sound_repeats, patch.ac_fault),
        ),
        battery_low: with_repeats(
            base.battery_low,
            patched_count(base.battery_low.sound_repeats, patch.battery_low),
        ),
        battery_critical: with_repeats(
            base.battery_critical,
            patched_count(base.battery_critical.sound_repeats, patch.critical),
        ),
    }
}

/// The text of a directory after a change.
pub open spec fn patched_path(present: Option<Seq<char>>, change: Option<Option<String>>) -> Option<
    Seq<char>,
> {
    match change {
        Some(p) => opt_text(p),
        None => present,
    }
}

fn patch_count(present: u64, change: Option<u64>) -> (r: u64)
    ensures
        r == patched_count(present, change),
{
    match change {
        Some(v) => clamp_u64(v, 1, 30, present),
        None => present,
    }
}

fn patch_alerts(alerts: AlertSettings, patch: RepeatConfigPatch) -> (r: AlertSettings)
    ensures
        r == patched_alerts(alerts, patch),
{
    let mut base = alerts;
    match patch.default {
        Some(v) => {
            let d = clamp_u64(v, 1, 30, alerts.ac_fault.sound_repeats);
            base.ac_fault.sound_repeats = d;
            base.battery_low.sound_repeats = d;
            base.battery_critical.sound_repeats = d;
        },
        None => {},
    }
    base.ac_fault.sound_repeats = patch_count(base.ac_fault.sound_repeats, patch.ac_fault);
    base.battery_low.sound_repeats = patch_count(base.battery_low.sound_repeats, patch.battery_low);
    base.battery_critical.sound_repeats = patch_count(
        base.battery_critical.sound_repeats,
        patch.critical,
    );
    base
}

fn copy_text(text: &Option<String>) -> (r: Option<String>)
    ensures
        r == *text,
{
    match text {
        Some(t) => Some(t.clone()),
        None => None,
    }
}

/// The sound configuration that a configuration holds.
pub fn get_sound_config(settings: &AppSettings) -> (r: SoundConfig)
    ensures
        r.repeat_config == (SoundRepeatConfig {
            ac_fault: settings.alerts.ac_fault.sound_repeats,
            battery_low: settings.alerts.battery_low.sound_repeats,
            critical: settings.alerts.battery_critical.sound_repeats,
            default: REPORTED_DEFAULT_REPEATS,
        }),
        r.repeat_delay == REPORTED_REPEAT_DELAY_MS,
        r.custom_sounds_path == settings.custom_sounds_path,
        r.sounds.ac_fault@ == sound_file_name_of(AlertKind::AcFault),
        r.sounds.battery_low@ == sound_file_name_of(AlertKind::BatteryLow),
        r.sounds.critical@ == sound_file_name_of(AlertKind::BatteryCritical),
{
    SoundConfig {
        repeat_config: SoundRepeatConfig {
            ac_fault: settings.alerts.ac_fault.sound_repeats,
            battery_low: settings.alerts.battery_low.sound_repeats,
            critical: settings.alerts.battery_critical.sound_repeats,
            default: REPORTED_DEFAULT_REPEATS,
        },
        repeat_delay: REPORTED_REPEAT_DELAY_MS,
        custom_sounds_path: copy_text(&settings.custom_sounds_path),
        sounds: SoundFiles {
            ac_fault: "alert-ac-fault.wav".to_string(),
            battery_low: "alert-battery-low.wav".to_string(),
            critical: "alert-critical.wav".to_string(),
        },
    }
}

/// Changes the sound configuration. The pause between repetitions is
/// accepted and not kept: it is fixed.
pub fn set_sound_config(settings: &mut AppSettings, config: SoundConfigPatch)
    ensures
        final(settings)@ == (AppSettingsView {
            alerts: match config.repeat_config {
                Some(patch) => patched_alerts(old(settings).alerts, patch),
                None => old(settings).alerts,
            },
            custom_sounds_path: patched_path(
                old(settings)@.custom_sounds_path,
                config.custom_sounds_path,
            ),
            ..old(settings)@
        }),
{
    match config.repeat_config {
        Some(patch) => {
            settings.alerts = patch_alerts(settings.alerts, patch);
        },
        None => {},
    }
    match config.custom_sounds_path {
        Some(path) => {
            settings.custom_sounds_path = path;
        },
        None => {},
    }
}

} // verus!
