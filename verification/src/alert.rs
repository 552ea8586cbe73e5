//! The kinds of alert, their names and sound files, and the notices that go
//! out to the user.

use crate::clock::{iso_text, now_iso};
use crate::settings::{AlertConfig, AppSettings, AppSettingsView};
use crate::shutdown::{ScheduleChange, ShutdownReason};
use crate::text::{
    decimal_digits, doubled_quotes, escape_ps_single_quote, one_decimal, push_decimal,
    push_one_decimal, str_eq,
};
use vstd::prelude::*;
use vstd::string::*;

verus! {

/// The conditions that alert the user.
#[derive(Clone, Copy, Debug, PartialEq, Eq, Hash)]
pub enum AlertKind {
    AcFault,
    BatteryLow,
    BatteryCritical,
}

/// The kind of alert that a name stands for, in any of the spellings that
/// requests use.
pub open spec fn kind_of_name(name: Seq<char>) -> Option<AlertKind> {
    if name == "acFault"@ || name == "ac_fault"@ || name == "ac-fault"@ || name == "ac"@ {
        Some(AlertKind::AcFault)
    } else if name == "batteryLow"@ || name == "battery_low"@ || name == "battery-low"@ || name
        == "low"@ {
        Some(AlertKind::BatteryLow)
    } else if name == "batteryCritical"@ || name == "critical"@ || name == "battery_critical"@
        || name == "battery-critical"@ {
        Some(AlertKind::BatteryCritical)
    } else {
        None
    }
}

/// The name under which an alert is shown and logged.
pub open spec fn event_name_of(kind: AlertKind) -> Seq<char> {
    match kind {
        AlertKind::AcFault => "Fallo de energia"@,
        AlertKind::BatteryLow => "Bateria baja"@,
        AlertKind::BatteryCritical => "Bateria critica"@,
    }
}

/// The severity class that the user interface shows an alert in.
pub open spec fn alert_type_of(kind: AlertKind) -> Seq<char> {
    match kind {
        AlertKind::AcFault => "warning"@,
        AlertKind::BatteryLow => "battery"@,
        AlertKind::BatteryCritical => "critical"@,
    }
}

/// The name of the sound file of an alert.
pub open spec fn sound_file_name_of(kind: AlertKind) -> Seq<char> {
    match kind {
        AlertKind::AcFault => "alert-ac-fault.wav"@,
        AlertKind::BatteryLow => "alert-battery-low.wav"@,
        AlertKind::BatteryCritical => "alert-critical.wav"@,
    }
}

/// The part of a configuration that says what an alert of `kind` does.
pub open spec fn config_of(settings: AppSettingsView, kind: AlertKind) -> AlertConfig {
    match kind {
        AlertKind::AcFault => settings.alerts.ac_fault,
        AlertKind::BatteryLow => settings.alerts.battery_low,
        AlertKind::BatteryCritical => settings.alerts.battery_critical,
    }
}

impl AlertKind {
    /// Reads the kind of alert from a name, in any of the spellings that
    /// requests use.
    pub fn from_str(value: &str) -> (r: Option<Self>)
        ensures
            r == kind_of_name(value@),
    {
        if str_eq(value, "acFault") || str_eq(value, "ac_fault") || str_eq(value, "ac-fault")
            || str_eq(value, "ac") {
            Some(AlertKind::AcFault)
        } else if str_eq(value, "batteryLow") || str_eq(value, "battery_low") || str_eq(
            value,
            "battery-low",
        ) || str_eq(value, "low") {
            Some(AlertKind::BatteryLow)
        } else if str_eq(value, "batteryCritical") || str_eq(value, "critical") || str_eq(
            value,
            "battery_critical",
        ) || str_eq(value, "battery-critical") {
            Some(AlertKind::BatteryCritical)
        } else {
            None
        }
    }

    /// The name under which the alert is shown and logged.
    pub fn event_name(self) -> (r: &'static str)
        ensures
            r@ == event_name_of(self),
    {
        match self {
            AlertKind::AcFault => "Fallo de energia",
            AlertKind::BatteryLow => "Bateria baja",
            AlertKind::BatteryCritical => "Bateria critica",
        }
    }

    /// The severity class that the user interface shows the alert in.
    pub fn alert_type(self) -> (r: &'static str)
        ensures
            r@ == alert_type_of(self),
    {
        match self {
            AlertKind::AcFault => "warning",
            AlertKind::BatteryLow => "battery",
            AlertKind::BatteryCritical => "critical",
        }
    }
}

/// The part of a configuration that says what an alert of `kind` does.
pub fn alert_config_for_kind(settings: &AppSettings, kind: AlertKind) -> (r: AlertConfig)
    ensures
        r == config_of(settings@, kind),
{
    match kind {
        AlertKind::AcFault => settings.alerts.ac_fault,
        AlertKind::BatteryLow => settings.alerts.battery_low,
        AlertKind::BatteryCritical => settings.alerts.battery_critical,
    }
}

/// The name of the sound file of an alert.
pub fn alert_sound_file_name(kind: AlertKind) -> (r: &'static str)
    ensures
        r@ == sound_file_name_of(kind),
{
    match kind {
        AlertKind::AcFault => "alert-ac-fault.wav",
        AlertKind::BatteryLow => "alert-battery-low.wav",
        AlertKind::BatteryCritical => "alert-critical.wav",
    }
}

// ---------------------------------------------------------------------
// Sound files
// ---------------------------------------------------------------------
/// Where the sound of an alert comes from.
#[derive(Clone, Copy, Debug, PartialEq, Eq)]
pub enum SoundSource {
    /// The file in the user's own sound directory.
    Custom,
    /// The file that ships with the application.
    Bundled,
    /// No file: a short beep.
    Fallback,
}

/// The user's own file where a directory is configured and holds the file,
/// else the shipped file where it exists, else the beep.
pub open spec fn sound_source_of(custom_file_exists: Option<bool>, bundled_file_exists: bool)
    -> SoundSource {
    if custom_file_exists == Some(true) {
        SoundSource::Custom
    } else if bundled_file_exists {
        SoundSource::Bundled
    } else {
        SoundSource::Fallback
    }
}

/// Picks the sound of an alert. `custom_file_exists` is `None` where no
/// directory of the user's is configured, else whether that directory holds
/// the alert's file.
pub fn resolve_sound_path(custom_file_exists: Option<bool>, bundled_file_exists: bool) -> (r:
    SoundSource)
    ensures
        r == sound_source_of(custom_file_exists, bundled_file_exists),
{
    match custom_file_exists {
        Some(true) => SoundSource::Custom,
        _ => if bundled_file_exists {
            SoundSource::Bundled
        } else {
            SoundSource::Fallback
        },
    }
}

/// Whether `c` is the letter given in its lower and upper case.
pub open spec fn is_letter(c: char, lower: char, upper: char) -> bool {
    c == lower || c == upper
}

/// Whether a file name has the extension `wav` or `mp3`, in any case of
/// letters: it ends in a point and those three letters, and the point is
/// not its first character.
pub open spec fn has_sound_extension(name: Seq<char>) -> bool {
    let n = name.len() as int;
    &&& n >= 5
    &&& name[n - 4] == '.'
    &&& ({
        ||| is_letter(name[n - 3], 'w', 'W') && is_letter(name[n - 2], 'a', 'A') && is_letter(
            name[n - 1],
            'v',
            'V',
        )
        ||| is_letter(name[n - 3], 'm', 'M') && is_letter(name[n - 2], 'p', 'P') && name[n - 1]
            == '3'
    })
}

/// Whether the file of this name (the last component of a path) is a sound
/// file.
pub fn is_sound_file(name: &str) -> (r: bool)
    ensures
        r == has_sound_extension(name@),
{
    let n = name.unicode_len();
    if n < 5 {
        return false;
    }
    if name.get_char(n - 4) != '.' {
        return false;
    }
    let a = name.get_char(n - 3);
    let b = name.get_char(n - 2);
    let c = name.get_char(n - 1);
    ((a == 'w' || a == 'W') && (b == 'a' || b == 'A') && (c == 'v' || c == 'V')) || ((a == 'm'
        || a == 'M') && (b == 'p' || b == 'P') && c == '3')
}

/// The text that stands for an optional file name.
pub open spec fn file_name_text(name: Option<&str>) -> Seq<char> {
    match name {
        Some(n) => n@,
        None => "unknown.wav"@,
    }
}

/// The file name of a path where it has one that is valid text, else
/// `unknown.wav`.
pub fn file_name_or_default(name: Option<&str>) -> (r: String)
    ensures
        r@ == file_name_text(name),
{
    match name {
        Some(n) => n.to_string(),
        None => "unknown.wav".to_string(),
    }
}

// ---------------------------------------------------------------------
// Notices
// ---------------------------------------------------------------------
/// What the user is told: that an alert fired, with the readings of that
/// moment, or that the configured shutdown is being carried out.
#[derive(Clone, Copy, Debug, PartialEq, Eq)]
pub enum Notice {
    Alert { kind: AlertKind, input_voltage: i64, battery_percent: u64, load_percent: u64 },
    ShutdownExecution { reason: ShutdownReason },
}

/// The text of an alert: input voltage with one decimal, charge and load.
pub open spec fn alert_message_of(input_voltage: i64, battery_percent: u64, load_percent: u64)
    -> Seq<char> {
    "Entrada "@ + one_decimal(input_voltage as int) + "V · Bateria "@ + decimal_digits(
        battery_percent as nat,
    ) + "% · Carga "@ + decimal_digits(load_percent as nat) + "%"@
}

/// The text that announces the shutdown, with the reason it was scheduled
/// for.
pub open spec fn shutdown_message_of(reason: ShutdownReason) -> Seq<char> {
    "Ejecutando accion configurada ("@ + reason.text() + ")"@
}

impl Notice {
    /// The title under which the notice is shown.
    pub open spec fn title_of(self) -> Seq<char> {
        match self {
            Notice::Alert { kind, .. } => event_name_of(kind),
            Notice::ShutdownExecution { .. } => "Apagado de seguridad"@,
        }
    }

    /// The severity class of the notice.
    pub open spec fn alert_type_of(self) -> Seq<char> {
        match self {
            Notice::Alert { kind, .. } => alert_type_of(kind),
            Notice::ShutdownExecution { .. } => "critical"@,
        }
    }

    /// The text of the notice.
    pub open spec fn message_of(self) -> Seq<char> {
        match self {
            Notice::Alert { input_voltage, battery_percent, load_percent, .. } => alert_message_of(
                input_voltage,
                battery_percent,
                load_percent,
            ),
            Notice::ShutdownExecution { reason } => shutdown_message_of(reason),
        }
    }

    /// The title under which the notice is shown.
    pub fn title(&self) -> (r: &'static str)
        ensures
            r@ == self.title_of(),
    {
        match self {
            Notice::Alert { kind, .. } => kind.event_name(),
            Notice::ShutdownExecution { .. } => "Apagado de seguridad",
        }
    }

    /// The severity class of the notice.
    pub fn alert_type(&self) -> (r: &'static str)
        ensures
            r@ == self.alert_type_of(),
    {
        match self {
            Notice::Alert { kind, .. } => kind.alert_type(),
            Notice::ShutdownExecution { .. } => "critical",
        }
    }

    /// Writes the text of the notice.
    pub fn message(&self) -> (r: String)
        ensures
            r@ == self.message_of(),
    {
        match self {
            Notice::Alert { input_voltage, battery_percent, load_percent, .. } => {
                let mut out = "Entrada ".to_string();
                push_one_decimal(&mut out, *input_voltage);
                out.append("V · Bateria ");
                push_decimal(&mut out, *battery_percent);
                out.append("% · Carga ");
                push_decimal(&mut out, *load_percent);
                out.append("%");
                out
            },
            Notice::ShutdownExecution { reason } => {
                let mut out = "Ejecutando accion configurada (".to_string();
                out.append(reason.as_str());
                out.append(")");
                out
            },
        }
    }
}

// ---------------------------------------------------------------------
// What goes out
// ---------------------------------------------------------------------
/// What is sent to the user interface with an urgent alert.
#[derive(Clone, Debug, PartialEq, Eq)]
pub struct UrgentAlertPayload {
    pub title: String,
    pub message: String,
    pub alert_type: String,
    pub created_at: String,
}

/// What is sent to the user interface when a shutdown was scheduled.
#[derive(Clone, Debug, PartialEq, Eq)]
pub struct ShutdownScheduledPayload {
    pub minutes: u64,
    pub shutdown_time: String,
}

/// The urgent alert of a notice that goes out at `now_ms`.
pub fn urgent_alert_payload(notice: &Notice, now_ms: u64) -> (r: UrgentAlertPayload)
    ensures
        r.title@ == notice.title_of(),
        r.message@ == notice.message_of(),
        r.alert_type@ == notice.alert_type_of(),
        r.created_at@ == iso_text(now_ms),
{
    UrgentAlertPayload {
        title: notice.title().to_string(),
        message: notice.message(),
        alert_type: notice.alert_type().to_string(),
        created_at: now_iso(now_ms),
    }
}

/// The announcement of a shutdown that was scheduled.
pub fn shutdown_scheduled_payload(change: ScheduleChange) -> (r: ShutdownScheduledPayload)
    ensures
        r.minutes == change.minutes,
        r.shutdown_time@ == iso_text(change.deadline_ms),
{
    ShutdownScheduledPayload {
        minutes: change.minutes,
        shutdown_time: now_iso(change.deadline_ms),
    }
}

/// The flags of a forced popup: a stop sign for a critical alert, an
/// exclamation mark for any other, each on top of all windows.
pub open spec fn popup_flags_of(alert_type: Seq<char>) -> Seq<char> {
    if alert_type == "critical"@ {
        "0x1010"@
    } else {
        "0x1030"@
    }
}

/// The PowerShell script that forces a popup on the user: it shows the
/// message under the title for twelve seconds. Single quotes in either are
/// doubled, so that neither can end the literal it stands in.
pub open spec fn popup_script_of(title: Seq<char>, message: Seq<char>, alert_type: Seq<char>)
    -> Seq<char> {
    "$w=New-Object -ComObject WScript.Shell; $null=$w.Popup('"@ + doubled_quotes(message)
        + "', 12, '"@ + doubled_quotes(title) + "', "@ + popup_flags_of(alert_type) + ")"@
}

/// Writes the script that forces a popup on the user.
pub fn popup_script(title: &str, message: &str, alert_type: &str) -> (r: String)
    ensures
        r@ == popup_script_of(title@, message@, alert_type@),
{
    let flags = if str_eq(alert_type, "critical") {
        "0x1010"
    } else {
        "0x1030"
    };
    let safe_title = escape_ps_single_quote(title);
    let safe_message = escape_ps_single_quote(message);
    let mut out = "$w=New-Object -ComObject WScript.Shell; $null=$w.Popup('".to_string();
    out.append(safe_message.as_str());
    out.append("', 12, '");
    out.append(safe_title.as_str());
    out.append("', ");
    out.append(flags);
    out.append(")");
    out
}

} // verus!
