//! The device connection and the cadence of the poll loop.
//!
//! Scanning, opening and reading the device happen elsewhere. Here is what
//! is made of their outcomes: when the monitor counts as connected, what
//! a read that failed leads to, which error is worth reporting, and how
//! long to wait for what.

use crate::history::{events_view, LogEntry};
use crate::monitor::{
    cancelled, lemma_logged_all_concat, lemma_logged_all_one, lemma_quiet, logged, logged_all,
    only_if, status_handled, AppState, Core, Effect, Latches, Outcome, UpsInfo,
};
use crate::packet::{decode_packet, decoded, DecodedPacket, DecodedPacketView};
use crate::settings::opt_text;
use crate::shutdown::ShutdownScheduler;
use crate::sound::{next_generation, SoundPlayer};
use crate::text::str_eq;
use vstd::prelude::*;
use vstd::string::*;

verus! {

/// USB vendor id of the UPS.
pub const UPS_VID: u16 = 0x0925;

/// USB product id of the UPS.
pub const UPS_PID: u16 = 0x1234;

/// Time between two scans of the device list while a device is open.
pub const REFRESH_CONNECTED_MS: u64 = 2_000;

/// Time between two scans of the device list while none is open.
pub const REFRESH_DISCONNECTED_MS: u64 = 350;

/// Pause before the next try when the device layer failed.
pub const RETRY_PAUSE_MS: u64 = 1_500;

/// The longest wait for the first read behind a successful open.
pub const FIRST_READ_TIMEOUT_MS: i32 = 150;

/// The shortest wait for any read.
pub const MIN_READ_TIMEOUT_MS: i32 = 100;

/// A `UpsInfo` with its texts as character sequences.
pub struct UpsInfoView {
    pub manufacturer: Seq<char>,
    pub product: Seq<char>,
    pub vendor_id: Seq<char>,
    pub product_id: Seq<char>,
    pub firmware: Option<Seq<char>>,
}

impl View for UpsInfo {
    type V = UpsInfoView;

    open spec fn view(&self) -> UpsInfoView {
        UpsInfoView {
            manufacturer: self.manufacturer@,
            product: self.product@,
            vendor_id: self.vendor_id@,
            product_id: self.product_id@,
            firmware: opt_text(self.firmware),
        }
    }
}

/// The view of what is known of the device, if anything.
pub open spec fn info_view(info: Option<UpsInfo>) -> Option<UpsInfoView> {
    match info {
        Some(i) => Some(i@),
        None => None,
    }
}

/// Whether a device of the list is the UPS.
pub fn is_ups_device(vendor_id: u16, product_id: u16) -> (r: bool)
    ensures
        r == (vendor_id == UPS_VID && product_id == UPS_PID),
{
    vendor_id == UPS_VID && product_id == UPS_PID
}

// ---------------------------------------------------------------------
// Connected and disconnected
// ---------------------------------------------------------------------
/// Whether a disconnect has yet to be told: the monitor was connected, or
/// it never said that it is not.
pub open spec fn disconnect_is_news(core: Core) -> bool {
    core.is_connected || !core.has_emitted_disconnected
}

/// What a disconnect does. Where it is news, the monitor forgets that it
/// was on battery, drops the pending shutdown, silences every sound, logs
/// the disconnect if it was connected, and says that it is disconnected.
/// Where it is not news, nothing happens.
pub open spec fn disconnected(core: Core, monitor_only_mode: bool) -> Outcome {
    if !disconnect_is_news(core) {
        (core, Seq::<Effect>::empty())
    } else {
        (
            Core {
                is_connected: false,
                has_emitted_disconnected: true,
                latches: Latches {
                    is_on_battery: false,
                    was_battery_low: false,
                    was_battery_critical: false,
                },
                battery_start_ms: None,
                scheduler: ShutdownScheduler { pending: None },
                sound: SoundPlayer { generation: next_generation(core.sound.generation) },
                ..core
            },
            cancelled(core, true).1 + only_if(
                core.is_connected,
                logged(monitor_only_mode, LogEntry::UpsDisconnected),
            ) + seq![Effect::EmitDisconnected],
        )
    }
}

/// What a connect does: nothing where the monitor is connected already,
/// else it is logged and told.
pub open spec fn connected(core: Core, monitor_only_mode: bool) -> Outcome {
    if core.is_connected {
        (core, Seq::<Effect>::empty())
    } else {
        (
            Core { is_connected: true, has_emitted_disconnected: false, ..core },
            logged(monitor_only_mode, LogEntry::UpsConnected) + seq![Effect::EmitConnected],
        )
    }
}

/// Whether an error message is worth reporting: it differs from the last
/// one reported, or none was reported since the last success.
pub open spec fn error_is_news(last_error: Option<Seq<char>>, message: Seq<char>) -> bool {
    last_error != Some(message)
}

/// An error is reported when none is remembered and when another one is;
/// the one that is remembered is not reported again until it was forgotten.
pub proof fn lemma_error_reported_once(last_error: Option<Seq<char>>, message: Seq<char>)
    ensures
        error_is_news(None, message),
        !error_is_news(Some(message), message),
        last_error matches Some(other) && other != message ==> error_is_news(last_error, message),
{
}

impl AppState {
    /// The monitor lost the device, or found none.
    pub fn mark_disconnected(&mut self, now_ms: u64, effects: &mut Vec<Effect>)
        ensures
            final(self).stepped(
                *old(self),
                disconnected(old(self).core, old(self).settings.monitor_only_mode),
                now_ms,
            ),
            final(effects)@ == old(effects)@ + disconnected(
                old(self).core,
                old(self).settings.monitor_only_mode,
            ).1,
            final(self).last_error == old(self).last_error,
            final(self).last_status == if disconnect_is_news(old(self).core) {
                None
            } else {
                old(self).last_status
            },
    {
        let was_connected = self.core.is_connected;
        if !was_connected && self.core.has_emitted_disconnected {
            assert(effects@ =~= old(effects)@ + Seq::<Effect>::empty());
            return ;
        }
        let ghost pre = *old(self);
        let ghost h0 = events_view(pre.events@);
        let ghost mo = pre.settings.monitor_only_mode;
        let ghost c = cancelled(pre.core, true).1;
        let ghost l = only_if(was_connected, logged(mo, LogEntry::UpsDisconnected));
        self.core.is_connected = false;
        self.core.has_emitted_disconnected = true;
        self.core.latches = Latches {
            is_on_battery: false,
            was_battery_low: false,
            was_battery_critical: false,
        };
        self.core.battery_start_ms = None;
        self.last_status = None;
        self.cancel_scheduled_shutdown(true, effects);
        self.core.sound.stop();
        proof {
            lemma_quiet(h0, c, now_ms);
        }
        if was_connected {
            self.log_event(LogEntry::UpsDisconnected, now_ms, effects);
        }
        proof {
            lemma_logged_all_concat(h0, c, l, now_ms);
        }
        assert(effects@ =~= old(effects)@ + (c + l));
        effects.push(Effect::EmitDisconnected);
        proof {
            lemma_logged_all_concat(h0, c + l, seq![Effect::EmitDisconnected], now_ms);
            lemma_logged_all_one(logged_all(h0, c + l, now_ms), Effect::EmitDisconnected, now_ms);
        }
        assert(effects@ =~= old(effects)@ + (c + l + seq![Effect::EmitDisconnected]));
    }

    /// The monitor has a device that is open.
    pub fn mark_connected(&mut self, now_ms: u64, effects: &mut Vec<Effect>)
        ensures
            final(self).follows(
                *old(self),
                connected(old(self).core, old(self).settings.monitor_only_mode),
                now_ms,
            ),
            final(effects)@ == old(effects)@ + connected(
                old(self).core,
                old(self).settings.monitor_only_mode,
            ).1,
    {
        if self.core.is_connected {
            assert(effects@ =~= old(effects)@ + Seq::<Effect>::empty());
            return ;
        }
        let ghost pre = *old(self);
        let ghost h0 = events_view(pre.events@);
        let ghost l = logged(pre.settings.monitor_only_mode, LogEntry::UpsConnected);
        self.core.is_connected = true;
        self.core.has_emitted_disconnected = false;
        self.log_event(LogEntry::UpsConnected, now_ms, effects);
        effects.push(Effect::EmitConnected);
        proof {
            lemma_logged_all_concat(h0, l, seq![Effect::EmitConnected], now_ms);
            lemma_logged_all_one(logged_all(h0, l, now_ms), Effect::EmitConnected, now_ms);
        }
        assert(effects@ =~= old(effects)@ + (l + seq![Effect::EmitConnected]));
    }

    /// Reports an error unless it is the one that was reported last. The
    /// result says whether it is reported.
    pub fn emit_error_once(&mut self, message: String, effects: &mut Vec<Effect>) -> (emitted: bool)
        ensures
            final(self).keeps_all_but_error(*old(self)),
            emitted == error_is_news(opt_text(old(self).last_error), message@),
            opt_text(final(self).last_error) == Some(message@),
            final(effects)@ == old(effects)@ + only_if(emitted, seq![Effect::EmitError]),
    {
        let same = match &self.last_error {
            Some(previous) => str_eq(previous.as_str(), message.as_str()),
            None => false,
        };
        if same {
            assert(effects@ =~= old(effects)@ + Seq::<Effect>::empty());
            return false;
        }
        self.last_error = Some(message);
        effects.push(Effect::EmitError);
        assert(effects@ =~= old(effects)@ + seq![Effect::EmitError]);
        true
    }

    /// Forgets the last error, so that the same one is reported again if
    /// it comes back.
    pub fn clear_last_error(&mut self)
        ensures
            final(self).keeps_all_but_error(*old(self)),
            final(self).last_error is None,
    {
        self.last_error = None;
    }

    /// Everything but the last error is as it was in `pre`.
    pub open spec fn keeps_all_but_error(self, pre: AppState) -> bool {
        &&& self.core == pre.core
        &&& self.settings == pre.settings
        &&& self.events == pre.events
        &&& self.data_history == pre.data_history
        &&& self.last_status == pre.last_status
        &&& self.device_info == pre.device_info
    }

    /// Everything but the device is as it was in `pre`.
    pub open spec fn keeps_all_but_device(self, pre: AppState) -> bool {
        &&& self.core == pre.core
        &&& self.settings == pre.settings
        &&& self.events == pre.events
        &&& self.data_history == pre.data_history
        &&& self.last_status == pre.last_status
        &&& self.last_error == pre.last_error
    }
}

// ---------------------------------------------------------------------
// The device
// ---------------------------------------------------------------------
/// The characters of an optional text.
pub open spec fn str_text(text: Option<&str>) -> Option<Seq<char>> {
    match text {
        Some(t) => Some(t@),
        None => None,
    }
}

/// What is known of a device that was just seen: its names, or the usual
/// ones where it gives none, the fixed ids, and the firmware that was
/// learnt before, if any.
pub open spec fn seen_device(
    known: Option<UpsInfoView>,
    manufacturer: Option<Seq<char>>,
    product: Option<Seq<char>>,
) -> UpsInfoView {
    UpsInfoView {
        manufacturer: match manufacturer {
            Some(m) => m,
            None => "RICHCOMM"@,
        },
        product: match product {
            Some(p) => p,
            None => "UPS USB Mon"@,
        },
        vendor_id: "0925"@,
        product_id: "1234"@,
        firmware: match known {
            Some(k) => k.firmware,
            None => None,
        },
    }
}

/// The device with its firmware learnt; no device stays no device.
pub open spec fn with_firmware(known: Option<UpsInfoView>, firmware: Seq<char>) -> Option<
    UpsInfoView,
> {
    match known {
        Some(k) => Some(UpsInfoView { firmware: Some(firmware), ..k }),
        None => None,
    }
}

impl AppState {
    /// Takes note of a device that the scan found.
    pub fn note_device(&mut self, manufacturer: Option<&str>, product: Option<&str>)
        ensures
            final(self).keeps_all_but_device(*old(self)),
            info_view(final(self).device_info) == Some(
                seen_device(
                    info_view(old(self).device_info),
                    str_text(manufacturer),
                    str_text(product),
                ),
            ),
    {
        let firmware = match self.device_info.take() {
            Some(existing) => existing.firmware,
            None => None,
        };
        let info = UpsInfo {
            manufacturer: match manufacturer {
                Some(m) => m.to_string(),
                None => "RICHCOMM".to_string(),
            },
            product: match product {
                Some(p) => p.to_string(),
                None => "UPS USB Mon".to_string(),
            },
            vendor_id: "0925".to_string(),
            product_id: "1234".to_string(),
            firmware,
        };
        self.device_info = Some(info);
    }

    /// Takes note of the firmware that the device reported.
    pub fn note_firmware(&mut self, firmware: String)
        ensures
            final(self).keeps_all_but_device(*old(self)),
            info_view(final(self).device_info) == with_firmware(
                info_view(old(self).device_info),
                firmware@,
            ),
    {
        match self.device_info.take() {
            Some(existing) => {
                self.device_info = Some(
                    UpsInfo {
                        manufacturer: existing.manufacturer,
                        product: existing.product,
                        vendor_id: existing.vendor_id,
                        product_id: existing.product_id,
                        firmware: Some(firmware),
                    },
                );
            },
            None => {},
        }
    }
}

// ---------------------------------------------------------------------
// Reads
// ---------------------------------------------------------------------
/// What a read of the device gave.
pub enum ReadResult<'a> {
    /// At least one byte.
    Data(&'a [u8]),
    /// The wait ran out with nothing read.
    Empty,
    /// The read failed, with this message.
    Failed(String),
}

/// The effects of a read that gave `raw`: those of the reading, where the
/// bytes are one.
pub open spec fn bytes_effects(pre: AppState, raw: Seq<u8>, now_ms: u64, window_focused: bool)
    -> Seq<Effect> {
    match decoded(raw, now_ms) {
        Some(DecodedPacketView::Status(status)) => status_handled(
            pre.core,
            pre.settings@,
            status,
            now_ms,
            window_focused,
        ).1,
        _ => Seq::<Effect>::empty(),
    }
}

/// The effects of a read that failed with `message`: the error is reported
/// unless it was the last one reported, then the disconnect takes place.
pub open spec fn loss_effects(pre: AppState, message: Seq<char>) -> Seq<Effect> {
    only_if(error_is_news(opt_text(pre.last_error), message), seq![Effect::EmitError])
        + disconnected(pre.core, pre.settings.monitor_only_mode).1
}

/// The effects of a read with this outcome.
pub open spec fn read_effects(
    pre: AppState,
    read: ReadResult<'_>,
    now_ms: u64,
    window_focused: bool,
) -> Seq<Effect> {
    match read {
        ReadResult::Data(raw) => bytes_effects(pre, raw@, now_ms, window_focused),
        ReadResult::Empty => Seq::<Effect>::empty(),
        ReadResult::Failed(message) => loss_effects(pre, message@),
    }
}

/// The effects of a failure of the device layer: the disconnect takes
/// place, then the error is reported unless it was the last one reported.
pub open spec fn layer_failure_effects(pre: AppState, message: Seq<char>) -> Seq<Effect> {
    disconnected(pre.core, pre.settings.monitor_only_mode).1 + only_if(
        error_is_news(opt_text(pre.last_error), message),
        seq![Effect::EmitError],
    )
}

/// The effects of an open device at hand: those of the connect.
pub open spec fn ready_effects(pre: AppState) -> Seq<Effect> {
    connected(pre.core, pre.settings.monitor_only_mode).1
}

/// The effects of a scan that found no UPS: those of the disconnect.
pub open spec fn no_device_effects(pre: AppState) -> Seq<Effect> {
    disconnected(pre.core, pre.settings.monitor_only_mode).1
}

impl AppState {
    /// What holds once an open device is at hand, whatever became of what
    /// is known of the device: the monitor is connected, and no error is
    /// remembered.
    pub open spec fn made_ready(self, pre: AppState, now_ms: u64) -> bool {
        &&& self.advanced(pre, connected(pre.core, pre.settings.monitor_only_mode), now_ms)
        &&& self.last_status == pre.last_status
        &&& self.last_error is None
    }

    /// What holds after a scan that found no UPS: the monitor is
    /// disconnected, and no error is remembered.
    pub open spec fn found_no_device(self, pre: AppState, now_ms: u64) -> bool {
        &&& self.stepped(pre, disconnected(pre.core, pre.settings.monitor_only_mode), now_ms)
        &&& self.last_error is None
        &&& self.last_status == if disconnect_is_news(pre.core) {
            None
        } else {
            pre.last_status
        }
    }
}

impl AppState {
    /// What holds after a read that gave `raw`: a reading was taken in, a
    /// firmware text was noted, or, where the bytes are neither, nothing
    /// changed.
    pub open spec fn took_bytes(
        self,
        pre: AppState,
        raw: Seq<u8>,
        now_ms: u64,
        window_focused: bool,
    ) -> bool {
        match decoded(raw, now_ms) {
            Some(DecodedPacketView::Status(status)) => self.took_reading(
                pre,
                status,
                now_ms,
                window_focused,
            ),
            Some(DecodedPacketView::Version(firmware)) => {
                &&& self.keeps_all_but_device(pre)
                &&& info_view(self.device_info) == with_firmware(
                    info_view(pre.device_info),
                    firmware,
                )
            },
            None => self == pre,
        }
    }

    /// What holds after a read that failed with `message`: it is the last
    /// error, and the monitor is disconnected.
    pub open spec fn lost_device(self, pre: AppState, message: Seq<char>, now_ms: u64) -> bool {
        &&& self.stepped(pre, disconnected(pre.core, pre.settings.monitor_only_mode), now_ms)
        &&& opt_text(self.last_error) == Some(message)
        &&& self.last_status == if disconnect_is_news(pre.core) {
            None
        } else {
            pre.last_status
        }
    }

    /// Decodes what a read gave and acts on it.
    pub fn handle_packet(&mut self, raw: &[u8], now_ms: u64, window_focused: bool, effects: &mut Vec<
        Effect,
    >)
        ensures
            final(self).took_bytes(*old(self), raw@, now_ms, window_focused),
            final(effects)@ == old(effects)@ + bytes_effects(
                *old(self),
                raw@,
                now_ms,
                window_focused,
            ),
    {
        match decode_packet(raw, now_ms) {
            Some(DecodedPacket::Status(status)) => {
                self.handle_status_packet(status, now_ms, window_focused, effects);
            },
            Some(DecodedPacket::Version(firmware)) => {
                self.note_firmware(firmware);
                assert(effects@ =~= old(effects)@ + Seq::<Effect>::empty());
            },
            None => {
                assert(effects@ =~= old(effects)@ + Seq::<Effect>::empty());
            },
        }
    }

    /// What holds after a read with this outcome.
    pub open spec fn took_read(
        self,
        pre: AppState,
        read: ReadResult<'_>,
        now_ms: u64,
        window_focused: bool,
    ) -> bool {
        match read {
            ReadResult::Data(raw) => self.took_bytes(pre, raw@, now_ms, window_focused),
            ReadResult::Empty => self == pre,
            ReadResult::Failed(message) => self.lost_device(pre, message@, now_ms),
        }
    }

    /// Acts on the outcome of one read. The result says whether the device
    /// stays open: it does unless the read failed.
    pub fn read_one_packet(
        &mut self,
        read: ReadResult<'_>,
        now_ms: u64,
        window_focused: bool,
        effects: &mut Vec<Effect>,
    ) -> (keep_device: bool)
        ensures
            keep_device == !(read is Failed),
            final(self).took_read(*old(self), read, now_ms, window_focused),
            final(effects)@ == old(effects)@ + read_effects(
                *old(self),
                read,
                now_ms,
                window_focused,
            ),
    {
        match read {
            ReadResult::Data(raw) => {
                self.handle_packet(raw, now_ms, window_focused, effects);
                true
            },
            ReadResult::Empty => {
                assert(effects@ =~= old(effects)@ + Seq::<Effect>::empty());
                true
            },
            ReadResult::Failed(message) => {
                let ghost text = message@;
                let ghost e = only_if(
                    error_is_news(opt_text(old(self).last_error), text),
                    seq![Effect::EmitError],
                );
                let ghost d = disconnected(old(self).core, old(self).settings.monitor_only_mode).1;
                self.emit_error_once(message, effects);
                self.mark_disconnected(now_ms, effects);
                assert(effects@ =~= old(effects)@ + (e + d));
                false
            },
        }
    }
}

// ---------------------------------------------------------------------
// The scan
// ---------------------------------------------------------------------
/// What the device list says of one device.
#[derive(Clone, Copy, Debug, PartialEq, Eq)]
pub struct DeviceIds {
    pub vendor_id: u16,
    pub product_id: u16,
}

/// Whether a device of the list has the ids of the UPS.
pub open spec fn is_ups_pred() -> spec_fn(DeviceIds) -> bool {
    |d: DeviceIds| d.vendor_id == UPS_VID && d.product_id == UPS_PID
}

/// The positions in a device list at which the UPS stands, in their order.
pub open spec fn ups_positions(devices: Seq<DeviceIds>) -> Seq<usize>
    decreases devices.len(),
{
    if devices.len() == 0 {
        Seq::<usize>::empty()
    } else if is_ups_pred()(devices.last()) {
        ups_positions(devices.drop_last()).push((devices.len() - 1) as usize)
    } else {
        ups_positions(devices.drop_last())
    }
}

/// The positions are those of the UPS and no others, in rising order: each
/// lies within the list at a device with the ids of the UPS, every such
/// device has its position among them, and each position is greater than
/// the one before it. (The list is one that fits a `Vec`.)
pub proof fn lemma_ups_positions(devices: Seq<DeviceIds>)
    requires
        devices.len() <= usize::MAX,
    ensures
        forall|k: int|
            0 <= k < ups_positions(devices).len() ==> (#[trigger] ups_positions(devices)[k])
                < devices.len() && is_ups_pred()(devices[ups_positions(devices)[k] as int]),
        forall|i: int|
            0 <= i < devices.len() && is_ups_pred()(#[trigger] devices[i]) ==> ups_positions(
                devices,
            ).contains(i as usize),
        forall|j: int, k: int|
            0 <= j < k < ups_positions(devices).len() ==> (#[trigger] ups_positions(devices)[j])
                < (#[trigger] ups_positions(devices)[k]),
    decreases devices.len(),
{
    if devices.len() > 0 {
        let front = devices.drop_last();
        let last = (devices.len() - 1) as usize;
        let p = ups_positions(devices);
        let q = ups_positions(front);
        lemma_ups_positions(front);
        assert(p == if is_ups_pred()(devices.last()) {
            q.push(last)
        } else {
            q
        });
        assert forall|k: int| 0 <= k < p.len() implies (#[trigger] p[k]) < devices.len()
            && is_ups_pred()(devices[p[k] as int]) by {
            if k < q.len() {
                assert(q[k] < front.len());
                assert(front[q[k] as int] == devices[q[k] as int]);
            }
        }
        assert forall|i: int| 0 <= i < devices.len() && is_ups_pred()(
            #[trigger] devices[i],
        ) implies p.contains(i as usize) by {
            if i < front.len() {
                assert(front[i] == devices[i]);
                assert(q.contains(i as usize));
                let w = choose|w: int| 0 <= w < q.len() && q[w] == i as usize;
                assert(p[w] == i as usize);
            } else {
                assert(p[p.len() - 1] == i as usize);
            }
        }
        assert forall|j: int, k: int| 0 <= j < k < p.len() implies (#[trigger] p[j]) < (
        #[trigger] p[k]) by {
            if k < q.len() {
                assert(q[j] < q[k]);
            } else {
                assert(q[j] < front.len());
            }
        }
    }
}

/// Picks from a device list the devices to try, in the order of the list.
pub fn select_ups_devices(devices: &Vec<DeviceIds>) -> (r: Vec<usize>)
    ensures
        r@ == ups_positions(devices@),
{
    let mut out: Vec<usize> = Vec::new();
    let mut i: usize = 0;
    while i < devices.len()
        invariant
            i <= devices.len(),
            out@ == ups_positions(devices@.take(i as int)),
        decreases devices.len() - i,
    {
        assert(devices@.take(i + 1).drop_last() =~= devices@.take(i as int));
        if is_ups_device(devices[i].vendor_id, devices[i].product_id) {
            out.push(i);
        }
        i += 1;
    }
    assert(devices@.take(devices.len() as int) =~= devices@);
    out
}

impl AppState {
    /// An open device is at hand: the last error is forgotten and the
    /// monitor counts as connected.
    pub fn device_ready(&mut self, now_ms: u64, effects: &mut Vec<Effect>)
        ensures
            final(self).made_ready(*old(self), now_ms),
            final(self).device_info == old(self).device_info,
            final(effects)@ == old(effects)@ + ready_effects(*old(self)),
    {
        self.clear_last_error();
        self.mark_connected(now_ms, effects);
    }

    /// The scan found no UPS: the last error is forgotten and the monitor
    /// counts as disconnected.
    pub fn no_device_found(&mut self, now_ms: u64, effects: &mut Vec<Effect>)
        ensures
            final(self).found_no_device(*old(self), now_ms),
            final(effects)@ == old(effects)@ + no_device_effects(*old(self)),
    {
        self.clear_last_error();
        self.mark_disconnected(now_ms, effects);
    }

    /// The device layer itself failed (it could not be started, or the
    /// list could not be read): the monitor counts as disconnected, and the
    /// error is reported unless it was the last one reported.
    pub fn device_layer_failed(&mut self, message: String, now_ms: u64, effects: &mut Vec<Effect>)
        ensures
            final(self).lost_device(*old(self), message@, now_ms),
            final(effects)@ == old(effects)@ + layer_failure_effects(*old(self), message@),
    {
        self.mark_disconnected(now_ms, effects);
        self.emit_error_once(message, effects);
    }
}

// ---------------------------------------------------------------------
// Cadence
// ---------------------------------------------------------------------
/// The shortest polling interval that the loop works with.
pub const MIN_POLLING_INTERVAL_MS: u64 = 500;

/// The polling interval that the loop works with: never under half a
/// second.
pub open spec fn effective_polling_interval(polling_interval: u64) -> u64 {
    if polling_interval < MIN_POLLING_INTERVAL_MS {
        MIN_POLLING_INTERVAL_MS
    } else {
        polling_interval
    }
}

/// How long a read may wait, in milliseconds: 90 without a device, 120
/// with a device that has given no reading yet, else the polling interval
/// but at most 600.
pub open spec fn read_timeout_of(device_open: bool, has_recent_status: bool, polling_interval: u64)
    -> i32 {
    if !device_open {
        90
    } else if !has_recent_status {
        120
    } else if effective_polling_interval(polling_interval) > 600 {
        600
    } else {
        effective_polling_interval(polling_interval) as i32
    }
}

/// How long a read may wait, in milliseconds.
pub fn read_timeout_ms(device_open: bool, has_recent_status: bool, polling_interval: u64) -> (r:
    i32)
    ensures
        r == read_timeout_of(device_open, has_recent_status, polling_interval),
        90 <= r <= 600,
{
    if !device_open {
        90
    } else if !has_recent_status {
        120
    } else {
        let interval = if polling_interval < MIN_POLLING_INTERVAL_MS {
            MIN_POLLING_INTERVAL_MS
        } else {
            polling_interval
        };
        if interval > 600 {
            600
        } else {
            interval as i32
        }
    }
}

/// The wait of the read that follows a successful open: the usual one, but
/// no longer than `FIRST_READ_TIMEOUT_MS`.
pub fn first_read_timeout_ms(read_timeout_ms: i32) -> (r: i32)
    ensures
        r == if read_timeout_ms < FIRST_READ_TIMEOUT_MS {
            read_timeout_ms
        } else {
            FIRST_READ_TIMEOUT_MS
        },
{
    if read_timeout_ms < FIRST_READ_TIMEOUT_MS {
        read_timeout_ms
    } else {
        FIRST_READ_TIMEOUT_MS
    }
}

/// The wait that is handed to the device: never under
/// `MIN_READ_TIMEOUT_MS`.
pub fn device_read_timeout_ms(read_timeout_ms: i32) -> (r: i32)
    ensures
        r == if read_timeout_ms > MIN_READ_TIMEOUT_MS {
            read_timeout_ms
        } else {
            MIN_READ_TIMEOUT_MS
        },
{
    if read_timeout_ms > MIN_READ_TIMEOUT_MS {
        read_timeout_ms
    } else {
        MIN_READ_TIMEOUT_MS
    }
}

/// Whether the device list is to be scanned again: the time since the last
/// scan has reached two seconds with a device open and 350 ms without.
pub open spec fn refresh_is_due(now_ms: u64, last_refresh_ms: u64, device_open: bool) -> bool {
    let elapsed = if now_ms >= last_refresh_ms {
        now_ms - last_refresh_ms
    } else {
        0
    };
    elapsed >= if device_open {
        REFRESH_CONNECTED_MS
    } else {
        REFRESH_DISCONNECTED_MS
    }
}

/// Whether the device list is to be scanned again.
pub fn refresh_due(now_ms: u64, last_refresh_ms: u64, device_open: bool) -> (r: bool)
    ensures
        r == refresh_is_due(now_ms, last_refresh_ms, device_open),
{
    let interval = if device_open {
        REFRESH_CONNECTED_MS
    } else {
        REFRESH_DISCONNECTED_MS
    };
    now_ms.saturating_sub(last_refresh_ms) >= interval
}

/// How long the loop sleeps at the end of a round, in milliseconds: 150
/// while disconnected, 30 while no reading has come yet, else what is left
/// of the polling interval behind the read, held to 30 to 280.
pub open spec fn pause_of(
    is_connected: bool,
    has_recent_status: bool,
    polling_interval: u64,
    read_timeout_ms: i32,
) -> u64 {
    if !is_connected {
        150
    } else if !has_recent_status {
        30
    } else {
        let waited = if read_timeout_ms > 0 {
            read_timeout_ms as int
        } else {
            0
        };
        let left = effective_polling_interval(polling_interval) - waited;
        if left < 30 {
            30
        } else if left > 280 {
            280
        } else {
            left as u64
        }
    }
}

/// How long the loop sleeps at the end of a round, in milliseconds.
pub fn sleep_ms(
    is_connected: bool,
    has_recent_status: bool,
    polling_interval: u64,
    read_timeout_ms: i32,
) -> (r: u64)
    ensures
        r == pause_of(is_connected, has_recent_status, polling_interval, read_timeout_ms),
        30 <= r <= 280,
{
    if !is_connected {
        150
    } else if !has_recent_status {
        30
    } else {
        let interval = if polling_interval < MIN_POLLING_INTERVAL_MS {
            MIN_POLLING_INTERVAL_MS
        } else {
            polling_interval
        };
        let waited: u64 = if read_timeout_ms > 0 {
            read_timeout_ms as u64
        } else {
            0
        };
        let left = interval.saturating_sub(waited);
        if left < 30 {
            30
        } else if left > 280 {
            280
        } else {
            left
        }
    }
}

/// What one round of the loop starts with.
#[derive(Clone, Copy, Debug, PartialEq, Eq)]
pub struct TickPlan {
    /// Whether a reading is at hand from an earlier round.
    pub has_recent_status: bool,
    /// How long reads of this round may wait.
    pub read_timeout_ms: i32,
    /// Whether the device list is scanned anew before the poll.
    pub refresh_devices: bool,
}

impl AppState {
    /// Plans one round of the loop.
    pub fn plan_tick(&self, device_open: bool, last_refresh_ms: u64, now_ms: u64) -> (plan:
        TickPlan)
        ensures
            plan.has_recent_status == self.last_status is Some,
            plan.read_timeout_ms == read_timeout_of(
                device_open,
                self.last_status is Some,
                self.settings.polling_interval,
            ),
            plan.refresh_devices == refresh_is_due(now_ms, last_refresh_ms, device_open),
    {
        let has_recent_status = self.last_status.is_some();
        TickPlan {
            has_recent_status,
            read_timeout_ms: read_timeout_ms(
                device_open,
                has_recent_status,
                self.settings.polling_interval,
            ),
            refresh_devices: refresh_due(now_ms, last_refresh_ms, device_open),
        }
    }

    /// How long the loop sleeps at the end of a round that was planned
    /// with `plan`.
    pub fn tick_pause(&self, plan: TickPlan) -> (r: u64)
        ensures
            r == pause_of(
                self.core.is_connected,
                plan.has_recent_status,
                self.settings.polling_interval,
                plan.read_timeout_ms,
            ),
    {
        sleep_ms(
            self.core.is_connected,
            plan.has_recent_status,
            self.settings.polling_interval,
            plan.read_timeout_ms,
        )
    }
}

} // verus!
