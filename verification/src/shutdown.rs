//! The shutdown scheduler: at most one pending deadline, and of competing
//! requests the earliest wins.

use crate::settings::AppSettings;
use crate::text::{str_eq, trim_str, trimmed};
use vstd::prelude::*;
use vstd::string::*;

verus! {

/// Delay of the shutdown that a low battery schedules: a safety floor, not
/// configurable.
pub const BATTERY_LOW_SHUTDOWN_DELAY_MINUTES: u64 = 5;

/// Delay of the shutdown that a critical battery schedules: a safety floor,
/// not configurable.
pub const BATTERY_CRITICAL_SHUTDOWN_DELAY_MINUTES: u64 = 1;

/// The shortest delay of a scheduled shutdown.
pub const MIN_DELAY_MINUTES: u64 = 1;

/// The longest delay of a scheduled shutdown.
pub const MAX_DELAY_MINUTES: u64 = 120;

pub const MILLIS_PER_MINUTE: u64 = 60_000;

/// Why a shutdown was scheduled.
#[derive(Clone, Copy, Debug, PartialEq, Eq)]
pub enum ShutdownReason {
    AcFault,
    BatteryLow,
    BatteryCritical,
    ManualTrigger,
    /// A rehearsal for the user interface. It is scheduled in a scheduler
    /// of the rehearsal's own and never in the one that the tick reads.
    Simulation,
}

impl ShutdownReason {
    /// The tag under which the reason is recorded and shown.
    pub open spec fn text(self) -> Seq<char> {
        match self {
            ShutdownReason::AcFault => "ac-fault"@,
            ShutdownReason::BatteryLow => "battery-low"@,
            ShutdownReason::BatteryCritical => "battery-critical"@,
            ShutdownReason::ManualTrigger => "manual-trigger"@,
            ShutdownReason::Simulation => "simulation"@,
        }
    }

    /// The tag under which the reason is recorded and shown.
    pub fn as_str(&self) -> (r: &'static str)
        ensures
            r@ == self.text(),
    {
        match self {
            ShutdownReason::AcFault => "ac-fault",
            ShutdownReason::BatteryLow => "battery-low",
            ShutdownReason::BatteryCritical => "battery-critical",
            ShutdownReason::ManualTrigger => "manual-trigger",
            ShutdownReason::Simulation => "simulation",
        }
    }
}

/// The one pending shutdown: when it is due, in milliseconds since the
/// epoch, and why.
#[derive(Clone, Copy, Debug, PartialEq, Eq)]
pub struct ScheduledShutdown {
    pub deadline_ms: u64,
    pub reason: ShutdownReason,
}

/// A delay brought into one minute to two hours.
pub open spec fn clamped_delay(minutes: u64) -> u64 {
    if minutes < MIN_DELAY_MINUTES {
        MIN_DELAY_MINUTES
    } else if minutes > MAX_DELAY_MINUTES {
        MAX_DELAY_MINUTES
    } else {
        minutes
    }
}

/// The deadline of a request made at `now_ms`: the clamped delay later,
/// held to 64 bits.
pub open spec fn deadline_of(now_ms: u64, minutes: u64) -> u64 {
    let target = now_ms + clamped_delay(minutes) * MILLIS_PER_MINUTE;
    if target > u64::MAX {
        u64::MAX
    } else {
        target as u64
    }
}

/// Whether a request for `target` takes the place of what is pending: only
/// where nothing is pending or the new deadline is strictly earlier.
pub open spec fn replaces(pending: Option<ScheduledShutdown>, target: u64) -> bool {
    match pending {
        Some(p) => target < p.deadline_ms,
        None => true,
    }
}

/// What is pending after a request.
pub open spec fn requested(
    pending: Option<ScheduledShutdown>,
    now_ms: u64,
    minutes: u64,
    reason: ShutdownReason,
) -> Option<ScheduledShutdown> {
    if replaces(pending, deadline_of(now_ms, minutes)) {
        Some(ScheduledShutdown { deadline_ms: deadline_of(now_ms, minutes), reason })
    } else {
        pending
    }
}

/// Whether the pending shutdown is due at `now_ms`.
pub open spec fn is_due(pending: Option<ScheduledShutdown>, now_ms: u64) -> bool {
    match pending {
        Some(p) => now_ms >= p.deadline_ms,
        None => false,
    }
}

/// What a scheduling request changed, for the notification that goes out.
#[derive(Clone, Copy, Debug, PartialEq, Eq)]
pub struct ScheduleChange {
    pub minutes: u64,
    pub deadline_ms: u64,
}

/// Holds the pending shutdown, if there is one.
#[derive(Clone, Copy, Debug, PartialEq, Eq)]
pub struct ShutdownScheduler {
    pub pending: Option<ScheduledShutdown>,
}

impl ShutdownScheduler {
    /// A scheduler with nothing pending.
    pub fn new() -> (r: Self)
        ensures
            r.pending is None,
    {
        ShutdownScheduler { pending: None }
    }

    /// Asks for a shutdown `delay_minutes` from now. The request takes
    /// effect only where it is earlier than what is pending; the result
    /// says whether it did, and with which delay and deadline.
    pub fn schedule_shutdown_after_minutes(
        &mut self,
        now_ms: u64,
        delay_minutes: u64,
        reason: ShutdownReason,
    ) -> (change: Option<ScheduleChange>)
        ensures
            final(self).pending == requested(old(self).pending, now_ms, delay_minutes, reason),
            change == if replaces(old(self).pending, deadline_of(now_ms, delay_minutes)) {
                Some(
                    ScheduleChange {
                        minutes: clamped_delay(delay_minutes),
                        deadline_ms: deadline_of(now_ms, delay_minutes),
                    },
                )
            } else {
                None
            },
    {
        let safe_minutes = if delay_minutes < MIN_DELAY_MINUTES {
            MIN_DELAY_MINUTES
        } else if delay_minutes > MAX_DELAY_MINUTES {
            MAX_DELAY_MINUTES
        } else {
            delay_minutes
        };
        let target_ms = now_ms.saturating_add(safe_minutes * MILLIS_PER_MINUTE);
        let should_replace = match self.pending {
            Some(existing) => target_ms < existing.deadline_ms,
            None => true,
        };
        if !should_replace {
            return None;
        }
        self.pending = Some(ScheduledShutdown { deadline_ms: target_ms, reason });
        Some(ScheduleChange { minutes: safe_minutes, deadline_ms: target_ms })
    }

    /// Drops what is pending. The result says whether there was anything.
    pub fn cancel_scheduled_shutdown(&mut self) -> (had_schedule: bool)
        ensures
            final(self).pending is None,
            had_schedule == old(self).pending is Some,
    {
        let had_schedule = self.pending.is_some();
        self.pending = None;
        had_schedule
    }

    /// Takes the pending shutdown out where it is due, and gives its
    /// reason; leaves everything as it is where none is due.
    pub fn take_due(&mut self, now_ms: u64) -> (due: Option<ShutdownReason>)
        ensures
            is_due(old(self).pending, now_ms) ==> final(self).pending is None && due == Some(
                old(self).pending->0.reason,
            ),
            !is_due(old(self).pending, now_ms) ==> final(self).pending == old(self).pending && due
                is None,
    {
        match self.pending {
            Some(p) => {
                if now_ms >= p.deadline_ms {
                    self.pending = None;
                    Some(p.reason)
                } else {
                    None
                }
            },
            None => None,
        }
    }
}

// ---------------------------------------------------------------------
// Laws of scheduling
// ---------------------------------------------------------------------
/// The deadline that is pending after a request is the earlier of the one
/// that was pending and the requested one; a request that is not earlier
/// leaves the pending shutdown, reason included, as it was.
pub proof fn lemma_earliest_wins(
    pending: Option<ScheduledShutdown>,
    now_ms: u64,
    minutes: u64,
    reason: ShutdownReason,
)
    ensures
        requested(pending, now_ms, minutes, reason) is Some,
        pending is None ==> requested(pending, now_ms, minutes, reason)->0.deadline_ms
            == deadline_of(now_ms, minutes),
        pending is Some ==> requested(pending, now_ms, minutes, reason)->0.deadline_ms == (if deadline_of(
            now_ms,
            minutes,
        ) < pending->0.deadline_ms {
            deadline_of(now_ms, minutes)
        } else {
            pending->0.deadline_ms
        }),
        pending is Some && pending->0.deadline_ms <= deadline_of(now_ms, minutes) ==> requested(
            pending,
            now_ms,
            minutes,
            reason,
        ) == pending,
{
}

/// A longer delay asked for at the same moment never gives an earlier
/// deadline.
pub proof fn lemma_deadline_monotonic(now_ms: u64, shorter: u64, longer: u64)
    requires
        shorter <= longer,
    ensures
        deadline_of(now_ms, shorter) <= deadline_of(now_ms, longer),
{
}

/// Of two requests made at the same moment the shorter delay stays pending,
/// in whichever order they arrive.
pub proof fn lemma_shorter_request_wins(
    now_ms: u64,
    shorter: u64,
    longer: u64,
    first: ShutdownReason,
    second: ShutdownReason,
)
    requires
        shorter <= longer,
    ensures
        requested(requested(None, now_ms, longer, first), now_ms, shorter, second)->0.deadline_ms
            == deadline_of(now_ms, shorter),
        requested(requested(None, now_ms, shorter, first), now_ms, longer, second) == requested(
            None,
            now_ms,
            shorter,
            first,
        ),
{
    lemma_deadline_monotonic(now_ms, shorter, longer);
}

/// A request that comes later but asks for a deadline that is earlier than
/// the one pending takes its place, reason and all: ten minutes asked for
/// first and two minutes asked for up to eight minutes later leave the
/// two-minute deadline pending. (The new deadline has to lie under the
/// largest value that 64 bits hold: from there on deadlines are held to
/// that value and none is earlier than another.)
pub proof fn lemma_sooner_deadline_replaces(
    first_ms: u64,
    later_ms: u64,
    longer: u64,
    shorter: u64,
    first: ShutdownReason,
    second: ShutdownReason,
)
    requires
        later_ms + clamped_delay(shorter) * MILLIS_PER_MINUTE < first_ms + clamped_delay(longer)
            * MILLIS_PER_MINUTE,
        later_ms + clamped_delay(shorter) * MILLIS_PER_MINUTE < u64::MAX,
    ensures
        replaces(requested(None, first_ms, longer, first), deadline_of(later_ms, shorter)),
        requested(requested(None, first_ms, longer, first), later_ms, shorter, second) == Some(
            ScheduledShutdown {
                deadline_ms: (later_ms + clamped_delay(shorter) * MILLIS_PER_MINUTE) as u64,
                reason: second,
            },
        ),
{
}

/// A request that comes no earlier and asks for no shorter a delay than
/// the one that is pending changes nothing: two minutes asked for first and
/// ten minutes asked for behind them leave the two-minute deadline pending,
/// with its reason.
pub proof fn lemma_later_deadline_changes_nothing(
    first_ms: u64,
    later_ms: u64,
    shorter: u64,
    longer: u64,
    first: ShutdownReason,
    second: ShutdownReason,
)
    requires
        first_ms <= later_ms,
        shorter <= longer,
    ensures
        !replaces(requested(None, first_ms, shorter, first), deadline_of(later_ms, longer)),
        requested(requested(None, first_ms, shorter, first), later_ms, longer, second)
            == requested(None, first_ms, shorter, first),
{
}

// ---------------------------------------------------------------------
// The system action
// ---------------------------------------------------------------------
/// What is done to the host when a shutdown is carried out.
#[derive(Clone, Debug, PartialEq, Eq)]
pub enum SystemAction {
    CustomCommand(String),
    Sleep,
    Shutdown,
}

/// A `SystemAction` with its text as a character sequence.
pub enum SystemActionView {
    CustomCommand(Seq<char>),
    Sleep,
    Shutdown,
}

impl View for SystemAction {
    type V = SystemActionView;

    open spec fn view(&self) -> SystemActionView {
        match self {
            SystemAction::CustomCommand(c) => SystemActionView::CustomCommand(c@),
            SystemAction::Sleep => SystemActionView::Sleep,
            SystemAction::Shutdown => SystemActionView::Shutdown,
        }
    }
}

/// The action for a trimmed custom command and a configured action: the
/// command where there is one, else sleep where that is configured, else
/// shutdown.
pub open spec fn system_action_of(command: Seq<char>, action: Seq<char>) -> SystemActionView {
    if command.len() > 0 {
        SystemActionView::CustomCommand(command)
    } else if action == "sleep"@ {
        SystemActionView::Sleep
    } else {
        SystemActionView::Shutdown
    }
}

/// Picks the system action from the custom command, already trimmed, and
/// the configured action.
pub fn select_system_action(command: &str, action: &str) -> (r: SystemAction)
    ensures
        r@ == system_action_of(command@, action@),
{
    if command.unicode_len() > 0 {
        SystemAction::CustomCommand(command.to_string())
    } else if str_eq(action, "sleep") {
        SystemAction::Sleep
    } else {
        SystemAction::Shutdown
    }
}

/// The system action that a configuration asks for: its custom command
/// without surrounding white space where that leaves anything, else its
/// configured action.
pub fn execute_shutdown_command(settings: &AppSettings) -> (r: SystemAction)
    ensures
        r@ == system_action_of(
            trimmed(settings@.shutdown_pc.shutdown_command),
            settings@.shutdown_pc.action,
        ),
        settings@.shutdown_pc.shutdown_command.len() == 0 ==> !(r is CustomCommand),
{
    let command = trim_str(settings.shutdown_pc.shutdown_command.as_str());
    select_system_action(command, settings.shutdown_pc.action.as_str())
}

} // verus!
