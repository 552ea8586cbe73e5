use ups_monitor::alert::{
    alert_config_for_kind, alert_sound_file_name, file_name_or_default, is_sound_file,
    popup_script, resolve_sound_path, shutdown_scheduled_payload, urgent_alert_payload, AlertKind,
    Notice, ShutdownScheduledPayload, SoundSource, UrgentAlertPayload,
};
use ups_monitor::settings::AppSettings;
use ups_monitor::shutdown::{ScheduleChange, ShutdownReason};
use ups_monitor::text::escape_ps_single_quote;

#[test]
fn kind_names() {
    for name in ["acFault", "ac_fault", "ac-fault", "ac"] {
        assert_eq!(AlertKind::from_str(name), Some(AlertKind::AcFault));
    }
    for name in ["batteryLow", "battery_low", "battery-low", "low"] {
        assert_eq!(AlertKind::from_str(name), Some(AlertKind::BatteryLow));
    }
    for name in ["batteryCritical", "critical", "battery_critical", "battery-critical"] {
        assert_eq!(AlertKind::from_str(name), Some(AlertKind::BatteryCritical));
    }
    assert_eq!(AlertKind::from_str(""), None);
    assert_eq!(AlertKind::from_str("AC"), None);
    assert_eq!(AlertKind::from_str("acFault "), None);
}

#[test]
fn kind_texts() {
    assert_eq!(AlertKind::AcFault.event_name(), "Fallo de energia");
    assert_eq!(AlertKind::BatteryLow.event_name(), "Bateria baja");
    assert_eq!(AlertKind::BatteryCritical.event_name(), "Bateria critica");
    assert_eq!(AlertKind::AcFault.alert_type(), "warning");
    assert_eq!(AlertKind::BatteryLow.alert_type(), "battery");
    assert_eq!(AlertKind::BatteryCritical.alert_type(), "critical");
    assert_eq!(alert_sound_file_name(AlertKind::AcFault), "alert-ac-fault.wav");
    assert_eq!(alert_sound_file_name(AlertKind::BatteryLow), "alert-battery-low.wav");
    assert_eq!(alert_sound_file_name(AlertKind::BatteryCritical), "alert-critical.wav");
}

#[test]
fn config_for_kind() {
    let s = AppSettings::default();
    assert_eq!(alert_config_for_kind(&s, AlertKind::AcFault).sound_repeats, 3);
    assert_eq!(alert_config_for_kind(&s, AlertKind::BatteryLow).sound_repeats, 5);
    assert_eq!(alert_config_for_kind(&s, AlertKind::BatteryCritical).sound_repeats, 10);
}

#[test]
fn sound_source_order() {
    assert_eq!(resolve_sound_path(Some(true), true), SoundSource::Custom);
    assert_eq!(resolve_sound_path(Some(true), false), SoundSource::Custom);
    assert_eq!(resolve_sound_path(Some(false), true), SoundSource::Bundled);
    assert_eq!(resolve_sound_path(None, true), SoundSource::Bundled);
    assert_eq!(resolve_sound_path(Some(false), false), SoundSource::Fallback);
    assert_eq!(resolve_sound_path(None, false), SoundSource::Fallback);
}

#[test]
fn sound_files_by_extension() {
    assert!(is_sound_file("a.wav"));
    assert!(is_sound_file("alert-critical.WAV"));
    assert!(is_sound_file("song.Mp3"));
    assert!(is_sound_file("x.y.mp3"));
    assert!(is_sound_file("..wav"));
    assert!(!is_sound_file(".wav"));
    assert!(!is_sound_file("wav"));
    assert!(!is_sound_file("a.wave"));
    assert!(!is_sound_file("a.ogg"));
    assert!(!is_sound_file("a.mp4"));
    assert!(!is_sound_file(""));
    assert!(!is_sound_file("a.wav "));
    assert!(is_sound_file("señal.wav"));
}

#[test]
fn file_name_default() {
    assert_eq!(file_name_or_default(Some("beep.wav")), "beep.wav");
    assert_eq!(file_name_or_default(None), "unknown.wav");
}

#[test]
fn alert_notice_texts() {
    let n = Notice::Alert {
        kind: AlertKind::BatteryLow,
        input_voltage: 0,
        battery_percent: 15,
        load_percent: 40,
    };
    assert_eq!(n.title(), "Bateria baja");
    assert_eq!(n.alert_type(), "battery");
    assert_eq!(n.message(), "Entrada 0.0V · Bateria 15% · Carga 40%");
    let m = Notice::Alert {
        kind: AlertKind::AcFault,
        input_voltage: 229_960,
        battery_percent: 100,
        load_percent: 7,
    };
    assert_eq!(m.message(), "Entrada 230.0V · Bateria 100% · Carga 7%");
    let k = Notice::Alert {
        kind: AlertKind::AcFault,
        input_voltage: -1_250,
        battery_percent: 0,
        load_percent: 0,
    };
    assert_eq!(k.message(), "Entrada -1.3V · Bateria 0% · Carga 0%");
}

#[test]
fn shutdown_notice_texts() {
    let n = Notice::ShutdownExecution { reason: ShutdownReason::AcFault };
    assert_eq!(n.title(), "Apagado de seguridad");
    assert_eq!(n.alert_type(), "critical");
    assert_eq!(n.message(), "Ejecutando accion configurada (ac-fault)");
    let m = Notice::ShutdownExecution { reason: ShutdownReason::ManualTrigger };
    assert_eq!(m.message(), "Ejecutando accion configurada (manual-trigger)");
}

#[test]
fn single_quotes_are_doubled() {
    assert_eq!(escape_ps_single_quote("it's"), "it''s");
    assert_eq!(escape_ps_single_quote("''"), "''''");
    assert_eq!(escape_ps_single_quote("plain"), "plain");
    assert_eq!(escape_ps_single_quote(""), "");
    assert_eq!(escape_ps_single_quote("año 'x'"), "año ''x''");
}

#[test]
fn urgent_alert_is_assembled() {
    let n = Notice::Alert {
        kind: AlertKind::BatteryCritical,
        input_voltage: 1_500,
        battery_percent: 9,
        load_percent: 55,
    };
    assert_eq!(
        urgent_alert_payload(&n, 947_638_923_004),
        UrgentAlertPayload {
            title: "Bateria critica".to_string(),
            message: "Entrada 1.5V · Bateria 9% · Carga 55%".to_string(),
            alert_type: "critical".to_string(),
            created_at: "2000-01-12T01:02:03.004+00:00".to_string(),
        }
    );
}

#[test]
fn shutdown_announcement_is_assembled() {
    assert_eq!(
        shutdown_scheduled_payload(ScheduleChange { minutes: 18, deadline_ms: 1_080_000 }),
        ShutdownScheduledPayload {
            minutes: 18,
            shutdown_time: "1970-01-01T00:18:00+00:00".to_string(),
        }
    );
}

#[test]
fn popup_script_quotes_its_texts() {
    assert_eq!(
        popup_script("UPS 'A'", "it's low", "critical"),
        "$w=New-Object -ComObject WScript.Shell; $null=$w.Popup('it''s low', 12, 'UPS ''A''', 0x1010)"
    );
    assert_eq!(
        popup_script("t", "m", "warning"),
        "$w=New-Object -ComObject WScript.Shell; $null=$w.Popup('m', 12, 't', 0x1030)"
    );
}
