use ups_monitor::clock::parse_date_bound;
use ups_monitor::history::{
    delete_data_history, delete_events, get_data_history, get_events, log_data_point_if_needed,
    log_event, time_matches, DataHistoryEntry, HistoryEvent, HistoryFilter, LogEntry,
};
use ups_monitor::packet::{UpsData, UpsStatusFlags};
use ups_monitor::shutdown::ShutdownReason;

fn reading(battery_percent: u64) -> UpsData {
    UpsData {
        input_voltage: 230_000,
        fault_voltage: 229_000,
        output_voltage: 231_000,
        load_percent: 25,
        frequency: 50_000,
        battery_voltage: 26_000,
        temperature: 24_500,
        battery_percent,
        estimated_runtime: 50,
        timestamp_ms: 0,
        status: UpsStatusFlags {
            raw: "00000000".to_string(),
            utility_fail: false,
            battery_low: false,
            bypass_active: false,
            ups_failed: false,
            ups_is_standby: false,
            test_in_progress: false,
            shutdown_active: false,
            beeper_on: false,
        },
    }
}

fn event(id: u64, time: &str, classification: &str) -> HistoryEvent {
    HistoryEvent {
        id,
        time: time.to_string(),
        classification: classification.to_string(),
        name: "n".to_string(),
        remarks: "r".to_string(),
    }
}

fn point(id: u64, time: &str) -> DataHistoryEntry {
    DataHistoryEntry {
        id,
        time: time.to_string(),
        input_voltage: 1,
        output_voltage: 2,
        frequency: 3,
        load_percent: 4,
        battery_voltage: 5,
        battery_percent: 6,
        temperature: 7,
    }
}

#[test]
fn event_is_written_in_front() {
    let mut events = vec![event(1, "t", "c")];
    assert!(log_event(&mut events, false, LogEntry::AcFault, 947_638_923_004));
    assert_eq!(events.len(), 2);
    assert_eq!(
        events[0],
        HistoryEvent {
            id: 947_638_923_004,
            time: "2000-01-12T01:02:03.004+00:00".to_string(),
            classification: "Critical Event".to_string(),
            name: "AC Fault".to_string(),
            remarks: "AC Fault".to_string(),
        }
    );
    assert_eq!(events[1].id, 1);
}

#[test]
fn log_entries_have_their_texts() {
    let all = [
        (LogEntry::AcFault, "Critical Event", "AC Fault", "AC Fault"),
        (LogEntry::NormalAc, "General Event", "Normal AC value", "Normal AC value"),
        (LogEntry::BatteryLow, "Critical Event", "Battery Low", "Battery Low"),
        (LogEntry::BatteryCritical, "Critical Event", "Battery Critical", "Battery Critical"),
        (LogEntry::UpsConnected, "General Event", "UPS connected", "UPS connected"),
        (LogEntry::UpsDisconnected, "Critical Event", "UPS disconnected", "UPS disconnected"),
        (
            LogEntry::ShutdownExecution(ShutdownReason::BatteryCritical),
            "Critical Event",
            "Shutdown execution",
            "battery-critical",
        ),
    ];
    for (entry, classification, name, remarks) in all {
        assert_eq!(entry.classification(), classification);
        assert_eq!(entry.name(), name);
        assert_eq!(entry.remarks(), remarks);
    }
}

#[test]
fn monitor_only_writes_no_event() {
    let mut events = vec![event(1, "t", "c")];
    assert!(!log_event(&mut events, true, LogEntry::AcFault, 5));
    assert_eq!(events, vec![event(1, "t", "c")]);
}

#[test]
fn event_history_holds_a_thousand() {
    let mut events = Vec::new();
    for i in 0..1001u64 {
        log_event(&mut events, false, LogEntry::BatteryLow, i);
    }
    assert_eq!(events.len(), 1000);
    assert_eq!(events[0].id, 1000);
    assert_eq!(events[999].id, 1);
    for i in 0..1000 {
        assert_eq!(events[i].id, 1000 - i as u64);
    }
}

#[test]
fn overlong_event_history_is_cut_on_the_next_write() {
    let mut events: Vec<HistoryEvent> = (0..1500u64).map(|i| event(i, "t", "c")).collect();
    log_event(&mut events, false, LogEntry::NormalAc, 9_999);
    assert_eq!(events.len(), 1000);
    assert_eq!(events[0].id, 9_999);
    assert_eq!(events[1].id, 0);
    assert_eq!(events[999].id, 998);
}

#[test]
fn data_point_is_written_when_the_interval_is_over() {
    let mut data = Vec::new();
    let mut last = 1_000u64;
    let r = reading(80);
    assert!(!log_data_point_if_needed(&mut data, &mut last, true, 60, &r, 60_999));
    assert_eq!(last, 1_000);
    assert!(data.is_empty());
    assert!(log_data_point_if_needed(&mut data, &mut last, true, 60, &r, 61_000));
    assert_eq!(last, 61_000);
    assert_eq!(
        data,
        vec![DataHistoryEntry {
            id: 61_000,
            time: "1970-01-01T00:01:01+00:00".to_string(),
            input_voltage: 230_000,
            output_voltage: 231_000,
            frequency: 50_000,
            load_percent: 25,
            battery_voltage: 26_000,
            battery_percent: 80,
            temperature: 24_500,
        }]
    );
    assert!(!log_data_point_if_needed(&mut data, &mut last, true, 60, &r, 61_001));
    assert!(!log_data_point_if_needed(&mut data, &mut last, true, 60, &r, 5));
}

#[test]
fn data_point_is_not_written_with_history_off() {
    let mut data = Vec::new();
    let mut last = 0u64;
    assert!(!log_data_point_if_needed(&mut data, &mut last, false, 60, &reading(1), u64::MAX));
    assert!(data.is_empty());
    assert_eq!(last, 0);
}

#[test]
fn data_history_holds_five_thousand() {
    let mut data = Vec::new();
    let mut last = 0u64;
    let r = reading(50);
    for i in 1..=5001u64 {
        assert!(log_data_point_if_needed(&mut data, &mut last, true, 1, &r, i * 1000));
    }
    assert_eq!(data.len(), 5000);
    assert_eq!(data[0].id, 5_001_000);
    assert_eq!(data[4999].id, 2_000);
}

fn sample_events() -> Vec<HistoryEvent> {
    vec![
        event(5, "2024-03-03T00:00:00+00:00", "Critical Event"),
        event(4, "2024-03-02T23:59:59.000000001+00:00", "General Event"),
        event(3, "2024-03-02T23:59:59+00:00", "Critical Event"),
        event(2, "not a time", "General Event"),
        event(1, "2024-03-01T01:00:00+02:00", "Critical Event"),
    ]
}

fn ids(events: &[HistoryEvent]) -> Vec<u64> {
    events.iter().map(|e| e.id).collect()
}

#[test]
fn events_without_filter() {
    let events = sample_events();
    assert_eq!(get_events(&events, &None), events);
}

#[test]
fn events_by_classification() {
    let events = sample_events();
    let critical = HistoryFilter {
        classification: Some("Critical Event".to_string()),
        date_from: None,
        date_to: None,
    };
    assert_eq!(ids(&get_events(&events, &Some(critical))), vec![5, 3, 1]);
    let all = HistoryFilter {
        classification: Some("All Events".to_string()),
        date_from: None,
        date_to: None,
    };
    assert_eq!(ids(&get_events(&events, &Some(all))), vec![5, 4, 3, 2, 1]);
    let none = HistoryFilter {
        classification: Some("Other".to_string()),
        date_from: None,
        date_to: None,
    };
    assert_eq!(ids(&get_events(&events, &Some(none))), Vec::<u64>::new());
}

#[test]
fn events_by_range_of_days() {
    let events = sample_events();
    let day = HistoryFilter {
        classification: None,
        date_from: Some("2024-03-02".to_string()),
        date_to: Some("2024-03-02".to_string()),
    };
    assert_eq!(ids(&get_events(&events, &Some(day))), vec![4, 3, 2]);
    let from = HistoryFilter {
        classification: None,
        date_from: Some("2024-03-01".to_string()),
        date_to: None,
    };
    assert_eq!(ids(&get_events(&events, &Some(from))), vec![5, 4, 3, 2]);
    let to = HistoryFilter {
        classification: None,
        date_from: None,
        date_to: Some("2024-02-29".to_string()),
    };
    assert_eq!(ids(&get_events(&events, &Some(to))), vec![2, 1]);
    let unreadable = HistoryFilter {
        classification: None,
        date_from: Some("03/01/2024".to_string()),
        date_to: Some("soon".to_string()),
    };
    assert_eq!(ids(&get_events(&events, &Some(unreadable))), vec![5, 4, 3, 2, 1]);
}

#[test]
fn events_by_classification_and_day() {
    let events = sample_events();
    let f = HistoryFilter {
        classification: Some("General Event".to_string()),
        date_from: Some("2024-03-02".to_string()),
        date_to: Some("2024-03-03".to_string()),
    };
    assert_eq!(ids(&get_events(&events, &Some(f))), vec![4, 2]);
}

#[test]
fn time_matches_bounds() {
    let from = parse_date_bound("2024-03-02", false);
    let to = parse_date_bound("2024-03-02", true);
    assert!(time_matches("2024-03-02T00:00:00Z", from, to));
    assert!(time_matches("2024-03-02T12:00:00-03:00", from, to));
    assert!(!time_matches("2024-03-02T23:00:00-03:00", from, to));
    assert!(!time_matches("2024-03-01T23:59:59.999Z", from, to));
    assert!(time_matches("2024-03-02T23:59:59.5Z", from, to));
    assert!(time_matches("2024-03-02T23:59:59.999999999Z", from, to));
    assert!(!time_matches("2024-03-03T00:00:00Z", from, to));
    assert!(time_matches("garbage", from, to));
}

#[test]
fn data_history_by_range_of_days() {
    let data = vec![
        point(4, "2024-03-03T00:00:00+00:00"),
        point(3, "2024-03-02T23:59:59.500+00:00"),
        point(2, "2024-03-02T10:00:00+00:00"),
        point(1, "?"),
    ];
    let f = HistoryFilter {
        classification: Some("ignored".to_string()),
        date_from: Some("2024-03-02".to_string()),
        date_to: Some("2024-03-02".to_string()),
    };
    let got: Vec<u64> = get_data_history(&data, &Some(f)).iter().map(|d| d.id).collect();
    assert_eq!(got, vec![3, 2, 1]);
    assert_eq!(get_data_history(&data, &None), data);
}

#[test]
fn events_are_deleted_by_id() {
    let mut events = sample_events();
    delete_events(&mut events, &vec![4, 1, 77]);
    assert_eq!(ids(&events), vec![5, 3, 2]);
    delete_events(&mut events, &vec![]);
    assert!(events.is_empty());
}

#[test]
fn data_points_are_deleted_by_id() {
    let mut data = vec![point(3, "a"), point(2, "b"), point(2, "c"), point(1, "d")];
    delete_data_history(&mut data, &vec![2]);
    let got: Vec<u64> = data.iter().map(|d| d.id).collect();
    assert_eq!(got, vec![3, 1]);
    delete_data_history(&mut data, &vec![]);
    assert!(data.is_empty());
}
