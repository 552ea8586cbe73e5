//! The two histories: what happened (events) and what was measured
//! (readings). Both are kept newest first and bounded in length.

use crate::clock::{
    bound_of, calendar_day, instant_of, instant_within, iso_text, now_iso, parse_date_bound,
    parse_instant, rfc3339_instant, within_bounds, DateBound,
};
use crate::packet::{UpsData, UpsDataView};
use crate::settings::opt_text;
use crate::shutdown::ShutdownReason;
use crate::text::str_eq;
use vstd::prelude::*;
use vstd::string::*;

verus! {

/// The most events that the history keeps.
pub const MAX_EVENTS: usize = 1000;

/// The most readings that the history keeps.
pub const MAX_DATA_POINTS: usize = 5000;

/// One entry of the event history. `id` is the time it was written, in
/// milliseconds since the epoch; `time` is the same as RFC 3339 text.
#[derive(Clone, Debug, PartialEq, Eq)]
pub struct HistoryEvent {
    pub id: u64,
    pub time: String,
    pub classification: String,
    pub name: String,
    pub remarks: String,
}

/// A `HistoryEvent` with its texts as character sequences.
pub struct HistoryEventView {
    pub id: u64,
    pub time: Seq<char>,
    pub classification: Seq<char>,
    pub name: Seq<char>,
    pub remarks: Seq<char>,
}

impl View for HistoryEvent {
    type V = HistoryEventView;

    open spec fn view(&self) -> HistoryEventView {
        HistoryEventView {
            id: self.id,
            time: self.time@,
            classification: self.classification@,
            name: self.name@,
            remarks: self.remarks@,
        }
    }
}

/// One stored reading; the measurements are in thousandths of their unit.
#[derive(Clone, Debug, PartialEq, Eq)]
pub struct DataHistoryEntry {
    pub id: u64,
    pub time: String,
    pub input_voltage: i64,
    pub output_voltage: i64,
    pub frequency: i64,
    pub load_percent: u64,
    pub battery_voltage: i64,
    pub battery_percent: u64,
    pub temperature: i64,
}

/// A `DataHistoryEntry` with its time as a character sequence.
pub struct DataHistoryEntryView {
    pub id: u64,
    pub time: Seq<char>,
    pub input_voltage: i64,
    pub output_voltage: i64,
    pub frequency: i64,
    pub load_percent: u64,
    pub battery_voltage: i64,
    pub battery_percent: u64,
    pub temperature: i64,
}

impl View for DataHistoryEntry {
    type V = DataHistoryEntryView;

    open spec fn view(&self) -> DataHistoryEntryView {
        DataHistoryEntryView {
            id: self.id,
            time: self.time@,
            input_voltage: self.input_voltage,
            output_voltage: self.output_voltage,
            frequency: self.frequency,
            load_percent: self.load_percent,
            battery_voltage: self.battery_voltage,
            battery_percent: self.battery_percent,
            temperature: self.temperature,
        }
    }
}

/// What a query keeps: a classification (or all of them) and a range of
/// days, each end optional, written as year, month and day.
#[derive(Clone, Debug, PartialEq, Eq)]
pub struct HistoryFilter {
    pub classification: Option<String>,
    pub date_from: Option<String>,
    pub date_to: Option<String>,
}

/// What the monitor itself writes into the event history.
#[derive(Clone, Copy, Debug, PartialEq, Eq)]
pub enum LogEntry {
    AcFault,
    NormalAc,
    BatteryLow,
    BatteryCritical,
    UpsConnected,
    UpsDisconnected,
    ShutdownExecution(ShutdownReason),
}

impl LogEntry {
    /// The classification under which the entry is filed.
    pub open spec fn classification_text(self) -> Seq<char> {
        match self {
            LogEntry::NormalAc | LogEntry::UpsConnected => "General Event"@,
            _ => "Critical Event"@,
        }
    }

    /// The name of the entry.
    pub open spec fn name_text(self) -> Seq<char> {
        match self {
            LogEntry::AcFault => "AC Fault"@,
            LogEntry::NormalAc => "Normal AC value"@,
            LogEntry::BatteryLow => "Battery Low"@,
            LogEntry::BatteryCritical => "Battery Critical"@,
            LogEntry::UpsConnected => "UPS connected"@,
            LogEntry::UpsDisconnected => "UPS disconnected"@,
            LogEntry::ShutdownExecution(_) => "Shutdown execution"@,
        }
    }

    /// The remarks of the entry: its name, or, for a shutdown, the reason it
    /// was scheduled for.
    pub open spec fn remarks_text(self) -> Seq<char> {
        match self {
            LogEntry::ShutdownExecution(reason) => reason.text(),
            _ => self.name_text(),
        }
    }

    /// The classification under which the entry is filed.
    pub fn classification(&self) -> (r: &'static str)
        ensures
            r@ == self.classification_text(),
    {
        match self {
            LogEntry::NormalAc | LogEntry::UpsConnected => "General Event",
            _ => "Critical Event",
        }
    }

    /// The name of the entry.
    pub fn name(&self) -> (r: &'static str)
        ensures
            r@ == self.name_text(),
    {
        match self {
            LogEntry::AcFault => "AC Fault",
            LogEntry::NormalAc => "Normal AC value",
            LogEntry::BatteryLow => "Battery Low",
            LogEntry::BatteryCritical => "Battery Critical",
            LogEntry::UpsConnected => "UPS connected",
            LogEntry::UpsDisconnected => "UPS disconnected",
            LogEntry::ShutdownExecution(_) => "Shutdown execution",
        }
    }

    /// The remarks of the entry.
    pub fn remarks(&self) -> (r: &'static str)
        ensures
            r@ == self.remarks_text(),
    {
        match self {
            LogEntry::ShutdownExecution(reason) => reason.as_str(),
            _ => self.name(),
        }
    }
}

/// The event that is written for `entry` at `now_ms`.
pub open spec fn event_of(entry: LogEntry, now_ms: u64) -> HistoryEventView {
    HistoryEventView {
        id: now_ms,
        time: iso_text(now_ms),
        classification: entry.classification_text(),
        name: entry.name_text(),
        remarks: entry.remarks_text(),
    }
}

/// The reading that is stored for `status` at `now_ms`.
pub open spec fn data_point_of(status: UpsDataView, now_ms: u64) -> DataHistoryEntryView {
    DataHistoryEntryView {
        id: now_ms,
        time: iso_text(now_ms),
        input_voltage: status.input_voltage,
        output_voltage: status.output_voltage,
        frequency: status.frequency,
        load_percent: status.load_percent,
        battery_voltage: status.battery_voltage,
        battery_percent: status.battery_percent,
        temperature: status.temperature,
    }
}

/// A history with `newest` put in front and what lies beyond `limit`
/// entries dropped from the far end.
pub open spec fn with_newest<T>(history: Seq<T>, newest: T, limit: nat) -> Seq<T> {
    let grown = seq![newest] + history;
    if grown.len() > limit {
        grown.take(limit as int)
    } else {
        grown
    }
}

/// The views of the events of a history.
pub open spec fn events_view(events: Seq<HistoryEvent>) -> Seq<HistoryEventView> {
    events.map_values(|e: HistoryEvent| e@)
}

/// The views of the readings of a history.
pub open spec fn data_view(data: Seq<DataHistoryEntry>) -> Seq<DataHistoryEntryView> {
    data.map_values(|d: DataHistoryEntry| d@)
}

/// Whether enough time has passed since the last stored reading: the
/// interval, given in seconds, is over.
pub open spec fn data_point_due(last_save_ms: u64, now_ms: u64, interval_seconds: u64) -> bool {
    let elapsed = if now_ms >= last_save_ms {
        now_ms - last_save_ms
    } else {
        0
    };
    elapsed >= interval_seconds * 1000
}

/// Puts an event in front of the history and keeps the history within
/// `MAX_EVENTS`. In monitor-only mode nothing is written. The result says
/// whether the history changed and has to be saved.
pub fn log_event(events: &mut Vec<HistoryEvent>, monitor_only_mode: bool, entry: LogEntry, now_ms: u64)
    -> (written: bool)
    ensures
        written == !monitor_only_mode,
        monitor_only_mode ==> *final(events) == *old(events),
        !monitor_only_mode ==> events_view(final(events)@) == with_newest(
            events_view(old(events)@),
            event_of(entry, now_ms),
            MAX_EVENTS as nat,
        ),
{
    if monitor_only_mode {
        return false;
    }
    let event = HistoryEvent {
        id: now_ms,
        time: now_iso(now_ms),
        classification: entry.classification().to_string(),
        name: entry.name().to_string(),
        remarks: entry.remarks().to_string(),
    };
    assert(event@ == event_of(entry, now_ms));
    events.insert(0, event);
    assert(events_view(events@) =~= seq![event@] + events_view(old(events)@));
    if events.len() > MAX_EVENTS {
        let ghost before = events@;
        events.truncate(MAX_EVENTS);
        assert(events_view(events@) =~= events_view(before).take(MAX_EVENTS as int));
    }
    true
}

/// Stores a reading where the history is switched on and the interval
/// since the last stored one is over. The result says whether it did.
pub fn log_data_point_if_needed(
    data: &mut Vec<DataHistoryEntry>,
    last_save_ms: &mut u64,
    save_history: bool,
    history_interval: u64,
    status: &UpsData,
    now_ms: u64,
) -> (written: bool)
    ensures
        written == (save_history && data_point_due(*old(last_save_ms), now_ms, history_interval)),
        !written ==> *final(data) == *old(data) && *final(last_save_ms) == *old(last_save_ms),
        written ==> *final(last_save_ms) == now_ms && data_view(final(data)@) == with_newest(
            data_view(old(data)@),
            data_point_of(status@, now_ms),
            MAX_DATA_POINTS as nat,
        ),
{
    if !save_history {
        return false;
    }
    let elapsed = now_ms.saturating_sub(*last_save_ms);
    let interval_ms: u128 = (history_interval as u128) * 1000;
    if (elapsed as u128) < interval_ms {
        return false;
    }
    *last_save_ms = now_ms;
    let entry = DataHistoryEntry {
        id: now_ms,
        time: now_iso(now_ms),
        input_voltage: status.input_voltage,
        output_voltage: status.output_voltage,
        frequency: status.frequency,
        load_percent: status.load_percent,
        battery_voltage: status.battery_voltage,
        battery_percent: status.battery_percent,
        temperature: status.temperature,
    };
    assert(entry@ == data_point_of(status@, now_ms));
    data.insert(0, entry);
    assert(data_view(data@) =~= seq![entry@] + data_view(old(data)@));
    if data.len() > MAX_DATA_POINTS {
        let ghost before = data@;
        data.truncate(MAX_DATA_POINTS);
        assert(data_view(data@) =~= data_view(before).take(MAX_DATA_POINTS as int));
    }
    true
}

// ---------------------------------------------------------------------
// Laws of the bounded history
// ---------------------------------------------------------------------
/// After an entry is written the history holds at most `limit` entries,
/// the new one in front and the earlier ones behind it in their order; a
/// full history loses its oldest entry and nothing else.
pub proof fn lemma_with_newest<T>(history: Seq<T>, newest: T, limit: nat)
    requires
        limit >= 1,
    ensures
        with_newest(history, newest, limit).len() == if history.len() + 1 > limit {
            limit
        } else {
            history.len() + 1
        },
        with_newest(history, newest, limit)[0] == newest,
        forall|i: int|
            1 <= i < with_newest(history, newest, limit).len() ==> with_newest(
                history,
                newest,
                limit,
            )[i] == history[i - 1],
        history.len() == limit ==> with_newest(history, newest, limit) == seq![newest]
            + history.drop_last(),
{
    if history.len() == limit {
        assert(with_newest(history, newest, limit) =~= seq![newest] + history.drop_last());
    }
}

/// A history within its limit stays within it.
pub proof fn lemma_history_stays_bounded<T>(history: Seq<T>, newest: T, limit: nat)
    requires
        limit >= 1,
        history.len() <= limit,
    ensures
        with_newest(history, newest, limit).len() <= limit,
{
}

// ---------------------------------------------------------------------
// Queries
// ---------------------------------------------------------------------
/// A `HistoryFilter` with its texts as character sequences.
pub struct HistoryFilterView {
    pub classification: Option<Seq<char>>,
    pub date_from: Option<Seq<char>>,
    pub date_to: Option<Seq<char>>,
}

impl View for HistoryFilter {
    type V = HistoryFilterView;

    open spec fn view(&self) -> HistoryFilterView {
        HistoryFilterView {
            classification: opt_text(self.classification),
            date_from: opt_text(self.date_from),
            date_to: opt_text(self.date_to),
        }
    }
}

/// The bound that a date of a filter stands for; none where the date is
/// absent or cannot be read.
pub open spec fn filter_bound(date: Option<Seq<char>>, end_of_day: bool) -> Option<DateBound> {
    match date {
        Some(text) => bound_of(calendar_day(text, "%Y-%m-%d"@), end_of_day),
        None => None,
    }
}

/// Whether a classification passes a filter: the filter names none, names
/// all of them, or names this one.
pub open spec fn classification_passes(wanted: Option<Seq<char>>, classification: Seq<char>)
    -> bool {
    match wanted {
        Some(w) => w == "All Events"@ || w == classification,
        None => true,
    }
}

/// Whether a time, as written in an entry, lies within the range of days
/// of a filter.
pub open spec fn time_passes(time: Seq<char>, from: Option<DateBound>, to: Option<DateBound>)
    -> bool {
    within_bounds(instant_of(rfc3339_instant(time)), from, to)
}

/// Whether an event passes a filter.
pub open spec fn event_passes(filter: Option<HistoryFilterView>, event: HistoryEvent) -> bool {
    match filter {
        Some(f) => classification_passes(f.classification, event.classification@) && time_passes(
            event.time@,
            filter_bound(f.date_from, false),
            filter_bound(f.date_to, true),
        ),
        None => true,
    }
}

/// Whether a stored reading passes a filter. Readings have no
/// classification: only the range of days counts.
pub open spec fn data_passes(filter: Option<HistoryFilterView>, entry: DataHistoryEntry) -> bool {
    match filter {
        Some(f) => time_passes(
            entry.time@,
            filter_bound(f.date_from, false),
            filter_bound(f.date_to, true),
        ),
        None => true,
    }
}

/// The events that pass a filter, as a predicate.
pub open spec fn event_pred(filter: Option<HistoryFilterView>) -> spec_fn(HistoryEvent) -> bool {
    |e: HistoryEvent| event_passes(filter, e)
}

/// The stored readings that pass a filter, as a predicate.
pub open spec fn data_pred(filter: Option<HistoryFilterView>) -> spec_fn(DataHistoryEntry) -> bool {
    |d: DataHistoryEntry| data_passes(filter, d)
}

/// The view of an optional filter.
pub open spec fn filter_view(filter: Option<HistoryFilter>) -> Option<HistoryFilterView> {
    match filter {
        Some(f) => Some(f@),
        None => None,
    }
}

fn copy_event(e: &HistoryEvent) -> (r: HistoryEvent)
    ensures
        r == *e,
{
    HistoryEvent {
        id: e.id,
        time: e.time.clone(),
        classification: e.classification.clone(),
        name: e.name.clone(),
        remarks: e.remarks.clone(),
    }
}

fn copy_data(d: &DataHistoryEntry) -> (r: DataHistoryEntry)
    ensures
        r == *d,
{
    DataHistoryEntry {
        id: d.id,
        time: d.time.clone(),
        input_voltage: d.input_voltage,
        output_voltage: d.output_voltage,
        frequency: d.frequency,
        load_percent: d.load_percent,
        battery_voltage: d.battery_voltage,
        battery_percent: d.battery_percent,
        temperature: d.temperature,
    }
}

fn read_bound(date: &Option<String>, end_of_day: bool) -> (r: Option<DateBound>)
    ensures
        r == filter_bound(opt_text(*date), end_of_day),
{
    match date {
        Some(text) => parse_date_bound(text.as_str(), end_of_day),
        None => None,
    }
}

fn classification_matches(wanted: &Option<String>, classification: &str) -> (r: bool)
    ensures
        r == classification_passes(opt_text(*wanted), classification@),
{
    match wanted {
        Some(w) => str_eq(w.as_str(), "All Events") || str_eq(w.as_str(), classification),
        None => true,
    }
}

/// Decides whether an entry with this time stays, given the bounds that the
/// filter's dates were read to.
pub fn time_matches(time: &str, from: Option<DateBound>, to: Option<DateBound>) -> (r: bool)
    ensures
        r == time_passes(time@, from, to),
{
    instant_within(parse_instant(time), from, to)
}

/// The events that pass the filter, in their order.
pub fn get_events(events: &Vec<HistoryEvent>, filter: &Option<HistoryFilter>) -> (r: Vec<
    HistoryEvent,
>)
    ensures
        r@ == events@.filter(event_pred(filter_view(*filter))),
{
    let ghost pred = event_pred(filter_view(*filter));
    let mut out: Vec<HistoryEvent> = Vec::new();
    let (from, to) = match filter {
        Some(f) => (read_bound(&f.date_from, false), read_bound(&f.date_to, true)),
        None => (None, None),
    };
    let mut i: usize = 0;
    proof {
        reveal(Seq::filter);
        assert(events@.take(0).filter(pred) =~= Seq::<HistoryEvent>::empty());
    }
    while i < events.len()
        invariant
            i <= events.len(),
            pred == event_pred(filter_view(*filter)),
            filter matches Some(f) ==> from == filter_bound(f@.date_from, false) && to
                == filter_bound(f@.date_to, true),
            out@ == events@.take(i as int).filter(pred),
        decreases events.len() - i,
    {
        let e = &events[i];
        let keep = match filter {
            Some(f) => classification_matches(&f.classification, e.classification.as_str())
                && time_matches(e.time.as_str(), from, to),
            None => true,
        };
        proof {
            assert(events@.take(i + 1) =~= events@.take(i as int).push(*e));
            events@.take(i as int).lemma_filter_push(*e, pred);
            assert(keep == pred(*e));
        }
        if keep {
            out.push(copy_event(e));
        }
        i += 1;
    }
    assert(events@.take(events.len() as int) =~= events@);
    out
}

/// The stored readings that pass the filter, in their order.
pub fn get_data_history(data: &Vec<DataHistoryEntry>, filter: &Option<HistoryFilter>) -> (r: Vec<
    DataHistoryEntry,
>)
    ensures
        r@ == data@.filter(data_pred(filter_view(*filter))),
{
    let ghost pred = data_pred(filter_view(*filter));
    let mut out: Vec<DataHistoryEntry> = Vec::new();
    let (from, to) = match filter {
        Some(f) => (read_bound(&f.date_from, false), read_bound(&f.date_to, true)),
        None => (None, None),
    };
    let mut i: usize = 0;
    proof {
        reveal(Seq::filter);
        assert(data@.take(0).filter(pred) =~= Seq::<DataHistoryEntry>::empty());
    }
    while i < data.len()
        invariant
            i <= data.len(),
            pred == data_pred(filter_view(*filter)),
            filter matches Some(f) ==> from == filter_bound(f@.date_from, false) && to
                == filter_bound(f@.date_to, true),
            out@ == data@.take(i as int).filter(pred),
        decreases data.len() - i,
    {
        let d = &data[i];
        let keep = match filter {
            Some(_) => time_matches(d.time.as_str(), from, to),
            None => true,
        };
        proof {
            assert(data@.take(i + 1) =~= data@.take(i as int).push(*d));
            data@.take(i as int).lemma_filter_push(*d, pred);
            assert(keep == pred(*d));
        }
        if keep {
            out.push(copy_data(d));
        }
        i += 1;
    }
    assert(data@.take(data.len() as int) =~= data@);
    out
}

// ---------------------------------------------------------------------
// Deletions
// ---------------------------------------------------------------------
/// The events whose id is none of `ids`, as a predicate.
pub open spec fn event_kept_pred(ids: Seq<u64>) -> spec_fn(HistoryEvent) -> bool {
    |e: HistoryEvent| !ids.contains(e.id)
}

/// The stored readings whose id is none of `ids`, as a predicate.
pub open spec fn data_kept_pred(ids: Seq<u64>) -> spec_fn(DataHistoryEntry) -> bool {
    |d: DataHistoryEntry| !ids.contains(d.id)
}

fn contains_id(ids: &Vec<u64>, id: u64) -> (r: bool)
    ensures
        r == ids@.contains(id),
{
    let mut i: usize = 0;
    while i < ids.len()
        invariant
            i <= ids.len(),
            forall|j: int| 0 <= j < i ==> ids@[j] != id,
        decreases ids.len() - i,
    {
        if ids[i] == id {
            return true;
        }
        i += 1;
    }
    false
}

/// Deletes the events with the given ids; an empty list deletes all.
pub fn delete_events(events: &mut Vec<HistoryEvent>, ids: &Vec<u64>)
    ensures
        ids@.len() == 0 ==> final(events)@.len() == 0,
        ids@.len() > 0 ==> final(events)@ == old(events)@.filter(event_kept_pred(ids@)),
{
    if ids.len() == 0 {
        events.clear();
        return ;
    }
    let ghost pred = event_kept_pred(ids@);
    let mut out: Vec<HistoryEvent> = Vec::new();
    let mut i: usize = 0;
    proof {
        reveal(Seq::filter);
        assert(events@.take(0).filter(pred) =~= Seq::<HistoryEvent>::empty());
    }
    while i < events.len()
        invariant
            i <= events.len(),
            *events == *old(events),
            pred == event_kept_pred(ids@),
            out@ == events@.take(i as int).filter(pred),
        decreases events.len() - i,
    {
        let e = &events[i];
        let keep = !contains_id(ids, e.id);
        proof {
            assert(events@.take(i + 1) =~= events@.take(i as int).push(*e));
            events@.take(i as int).lemma_filter_push(*e, pred);
        }
        if keep {
            out.push(copy_event(e));
        }
        i += 1;
    }
    assert(events@.take(events.len() as int) =~= events@);
    *events = out;
}

/// Deletes the stored readings with the given ids; an empty list deletes
/// all.
pub fn delete_data_history(data: &mut Vec<DataHistoryEntry>, ids: &Vec<u64>)
    ensures
        ids@.len() == 0 ==> final(data)@.len() == 0,
        ids@.len() > 0 ==> final(data)@ == old(data)@.filter(data_kept_pred(ids@)),
{
    if ids.len() == 0 {
        data.clear();
        return ;
    }
    let ghost pred = data_kept_pred(ids@);
    let mut out: Vec<DataHistoryEntry> = Vec::new();
    let mut i: usize = 0;
    proof {
        reveal(Seq::filter);
        assert(data@.take(0).filter(pred) =~= Seq::<DataHistoryEntry>::empty());
    }
    while i < data.len()
        invariant
            i <= data.len(),
            *data == *old(data),
            pred == data_kept_pred(ids@),
            out@ == data@.take(i as int).filter(pred),
        decreases data.len() - i,
    {
        let d = &data[i];
        let keep = !contains_id(ids, d.id);
        proof {
            assert(data@.take(i + 1) =~= data@.take(i as int).push(*d));
            data@.take(i as int).lemma_filter_push(*d, pred);
        }
        if keep {
            out.push(copy_data(d));
        }
        i += 1;
    }
    assert(data@.take(data.len() as int) =~= data@);
    *data = out;
}

} // verus!
