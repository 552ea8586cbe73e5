//! The poll loop: the driver that ties connection, decoding, the state
//! machine, the alerts and the shutdown deadline together, round after
//! round.
//!
//! The loop itself runs elsewhere, because it starts the device layer,
//! scans, opens, reads and sleeps. `PollLoop::step` decides what it does
//! next: it takes what the last action came to and gives the next action.
//! One round goes: plan; start the device layer if it is not there; scan
//! the device list anew if that is due; read the open device, or list the
//! devices and try to open the UPS; check the shutdown deadline; sleep. A
//! round that fails on the way skips what is left of it, but not the check
//! of the shutdown deadline: the loop never sleeps without it.

use crate::connection::{
    device_read_timeout_ms, error_is_news, first_read_timeout_ms, info_view,
    layer_failure_effects, no_device_effects, pause_of, read_effects, read_timeout_of,
    ready_effects, refresh_is_due, seen_device, select_ups_devices, str_text, ups_positions,
    DeviceIds, ReadResult, TickPlan, FIRST_READ_TIMEOUT_MS, MIN_READ_TIMEOUT_MS, RETRY_PAUSE_MS,
};
use crate::monitor::{only_if, shutdown_processed, AppState, Effect};
use crate::settings::opt_text;
use vstd::prelude::*;
use vstd::string::*;

verus! {

/// Where a round stands: what the loop is waiting for.
#[derive(Clone, Copy, Debug, PartialEq, Eq)]
pub enum LoopPhase {
    /// Nothing is under way: the next round can begin.
    Idle,
    /// The device layer is being started.
    AwaitApi,
    /// The device list is being scanned anew.
    AwaitRefresh,
    /// The open device is being read.
    AwaitRead,
    /// The devices are being listed.
    AwaitList,
    /// The first of the candidates is being opened.
    AwaitOpen,
    /// The device that was just opened is being read.
    AwaitFirstRead,
    /// The poll of this round is over; the shutdown deadline is next.
    RoundEnd,
    /// The round was given up; the shutdown deadline is next, and behind
    /// it the pause before the next try.
    RetryEnd,
}

/// What the surroundings do next.
#[derive(Clone, Copy, Debug, PartialEq, Eq)]
pub enum LoopAction {
    /// Start the device layer; report `ApiCreated` or `ApiFailed`.
    CreateApi,
    /// Scan the device list anew; report `Refreshed` or `RefreshFailed`.
    RefreshDevices,
    /// List the devices; report `Listed`.
    ListDevices,
    /// Open the device at this place of the list; report `Opened` or
    /// `OpenFailed`, either with the names the device gives.
    Open { index: usize },
    /// Read the open device, waiting no longer than this; report `Read`.
    Read { timeout_ms: i32 },
    /// Nothing to do outside; report `Resumed` at once.
    Proceed,
    /// Sleep; then report `Resumed`.
    Sleep { ms: u64 },
}

/// What the last action came to.
pub enum LoopEvent<'a> {
    /// The loop starts, or a pause is over.
    Resumed,
    ApiCreated,
    ApiFailed(String),
    Refreshed,
    RefreshFailed(String),
    Listed(Vec<DeviceIds>),
    Opened { manufacturer: Option<String>, product: Option<String> },
    OpenFailed { manufacturer: Option<String>, product: Option<String>, message: String },
    Read(ReadResult<'a>),
}

/// What the loop keeps from step to step. The surroundings hold the device
/// layer and the device open exactly while `api_ready` and `device_open`
/// say so.
#[derive(Clone, Debug, PartialEq, Eq)]
pub struct PollLoop {
    pub api_ready: bool,
    pub device_open: bool,
    pub last_device_refresh_ms: u64,
    /// When this round began.
    pub round_started_ms: u64,
    /// The plan of this round.
    pub plan: TickPlan,
    pub phase: LoopPhase,
    /// The places in the device list that are still to be tried; the
    /// first one is being opened.
    pub candidates: Vec<usize>,
}

/// A `PollLoop` with its candidates as a sequence.
pub struct PollLoopView {
    pub api_ready: bool,
    pub device_open: bool,
    pub last_device_refresh_ms: u64,
    pub round_started_ms: u64,
    pub plan: TickPlan,
    pub phase: LoopPhase,
    pub candidates: Seq<usize>,
}

impl View for PollLoop {
    type V = PollLoopView;

    open spec fn view(&self) -> PollLoopView {
        PollLoopView {
            api_ready: self.api_ready,
            device_open: self.device_open,
            last_device_refresh_ms: self.last_device_refresh_ms,
            round_started_ms: self.round_started_ms,
            plan: self.plan,
            phase: self.phase,
            candidates: self.candidates@,
        }
    }
}

/// The loop before its first round.
pub open spec fn initial_loop() -> PollLoopView {
    PollLoopView {
        api_ready: false,
        device_open: false,
        last_device_refresh_ms: 0,
        round_started_ms: 0,
        plan: TickPlan { has_recent_status: false, read_timeout_ms: 90, refresh_devices: true },
        phase: LoopPhase::Idle,
        candidates: Seq::<usize>::empty(),
    }
}

/// The plan of a round that begins at `now_ms`.
pub open spec fn planned(state: AppState, l: PollLoopView, now_ms: u64) -> TickPlan {
    TickPlan {
        has_recent_status: state.last_status is Some,
        read_timeout_ms: read_timeout_of(
            l.device_open,
            state.last_status is Some,
            state.settings.polling_interval,
        ),
        refresh_devices: refresh_is_due(now_ms, l.last_device_refresh_ms, l.device_open),
    }
}

/// The wait that is handed to the device for a planned wait.
pub open spec fn device_timeout(read_timeout_ms: i32) -> i32 {
    if read_timeout_ms > MIN_READ_TIMEOUT_MS {
        read_timeout_ms
    } else {
        MIN_READ_TIMEOUT_MS
    }
}

/// The wait of the read that follows a successful open.
pub open spec fn first_timeout(read_timeout_ms: i32) -> i32 {
    device_timeout(
        if read_timeout_ms < FIRST_READ_TIMEOUT_MS {
            read_timeout_ms
        } else {
            FIRST_READ_TIMEOUT_MS
        },
    )
}

/// The poll of a round: the open device is read; without one the devices
/// are listed.
pub open spec fn poll_entered(l: PollLoopView) -> (PollLoopView, LoopAction) {
    if l.device_open {
        (
            PollLoopView { phase: LoopPhase::AwaitRead, ..l },
            LoopAction::Read { timeout_ms: device_timeout(l.plan.read_timeout_ms) },
        )
    } else {
        (PollLoopView { phase: LoopPhase::AwaitList, ..l }, LoopAction::ListDevices)
    }
}

/// What follows once the device layer is there: the scan where it is due,
/// else the poll.
pub open spec fn layer_entered(l: PollLoopView) -> (PollLoopView, LoopAction) {
    if l.plan.refresh_devices {
        (PollLoopView { phase: LoopPhase::AwaitRefresh, ..l }, LoopAction::RefreshDevices)
    } else {
        poll_entered(l)
    }
}

/// The beginning of a round: the plan is made, and the device layer is
/// started where it is not there.
pub open spec fn round_entered(l: PollLoopView, plan: TickPlan, now_ms: u64) -> (
    PollLoopView,
    LoopAction,
) {
    let begun = PollLoopView { plan, round_started_ms: now_ms, ..l };
    if !begun.api_ready {
        (PollLoopView { phase: LoopPhase::AwaitApi, ..begun }, LoopAction::CreateApi)
    } else {
        layer_entered(begun)
    }
}

/// The round is given up: the shutdown deadline is next, and behind it the
/// pause before the next try.
pub open spec fn given_up(l: PollLoopView) -> (PollLoopView, LoopAction) {
    (
        PollLoopView { phase: LoopPhase::RetryEnd, candidates: Seq::<usize>::empty(), ..l },
        LoopAction::Proceed,
    )
}

/// The poll is over: the shutdown deadline is next.
pub open spec fn poll_left(l: PollLoopView) -> (PollLoopView, LoopAction) {
    (
        PollLoopView { phase: LoopPhase::RoundEnd, candidates: Seq::<usize>::empty(), ..l },
        LoopAction::Proceed,
    )
}

/// The candidates are tried in their order; when none is left the poll is
/// over.
pub open spec fn candidate_tried(l: PollLoopView, candidates: Seq<usize>) -> (
    PollLoopView,
    LoopAction,
) {
    if candidates.len() == 0 {
        poll_left(l)
    } else {
        (
            PollLoopView { phase: LoopPhase::AwaitOpen, candidates, ..l },
            LoopAction::Open { index: candidates[0] },
        )
    }
}

/// The candidates behind the first one.
pub open spec fn rest_of(candidates: Seq<usize>) -> Seq<usize> {
    if candidates.len() == 0 {
        candidates
    } else {
        candidates.drop_first()
    }
}

/// The phases in which the shutdown deadline is next.
pub open spec fn at_round_end(phase: LoopPhase) -> bool {
    phase is RoundEnd || phase is RetryEnd
}

/// Whether an event is the answer that a phase waits for.
pub open spec fn in_turn(phase: LoopPhase, event: LoopEvent<'_>) -> bool {
    match phase {
        LoopPhase::Idle | LoopPhase::RoundEnd | LoopPhase::RetryEnd => event is Resumed,
        LoopPhase::AwaitApi => event is ApiCreated || event is ApiFailed,
        LoopPhase::AwaitRefresh => event is Refreshed || event is RefreshFailed,
        LoopPhase::AwaitRead | LoopPhase::AwaitFirstRead => event is Read,
        LoopPhase::AwaitList => event is Listed,
        LoopPhase::AwaitOpen => event is Opened || event is OpenFailed,
    }
}

/// The loop after a step, and the action that the step gives. `plan` is
/// the plan that a round beginning now would get, `pause` the sleep that
/// would end the round now. A round is given up when the device layer
/// fails and when an event comes out of turn. A read that fails closes
/// the device, whether it is the first one behind the open or a later
/// one.
pub open spec fn loop_step(
    l: PollLoopView,
    event: LoopEvent<'_>,
    plan: TickPlan,
    now_ms: u64,
    pause: u64,
) -> (PollLoopView, LoopAction) {
    if !in_turn(l.phase, event) {
        given_up(l)
    } else {
        match event {
            LoopEvent::Resumed => if l.phase is Idle {
                round_entered(l, plan, now_ms)
            } else {
                (
                    PollLoopView { phase: LoopPhase::Idle, ..l },
                    LoopAction::Sleep {
                        ms: if l.phase is RetryEnd {
                            RETRY_PAUSE_MS
                        } else {
                            pause
                        },
                    },
                )
            },
            LoopEvent::ApiCreated => layer_entered(PollLoopView { api_ready: true, ..l }),
            LoopEvent::ApiFailed(_) => given_up(l),
            LoopEvent::Refreshed => poll_entered(
                PollLoopView { last_device_refresh_ms: l.round_started_ms, ..l },
            ),
            LoopEvent::RefreshFailed(_) => given_up(
                PollLoopView { api_ready: false, device_open: false, ..l },
            ),
            LoopEvent::Listed(devices) => candidate_tried(l, ups_positions(devices@)),
            LoopEvent::Opened { .. } => (
                PollLoopView {
                    device_open: true,
                    phase: LoopPhase::AwaitFirstRead,
                    candidates: Seq::<usize>::empty(),
                    ..l
                },
                LoopAction::Read { timeout_ms: first_timeout(l.plan.read_timeout_ms) },
            ),
            LoopEvent::OpenFailed { .. } => candidate_tried(l, rest_of(l.candidates)),
            LoopEvent::Read(read) => poll_left(
                PollLoopView { device_open: !(read is Failed), ..l },
            ),
        }
    }
}

/// Whether a step ends in reading the device that was open already, which
/// makes the monitor count as connected.
pub open spec fn reads_open_device(l: PollLoopView, event: LoopEvent<'_>, plan: TickPlan) -> bool {
    l.device_open && match event {
        LoopEvent::Resumed => l.phase is Idle && l.api_ready && !plan.refresh_devices,
        LoopEvent::ApiCreated => l.phase is AwaitApi && !l.plan.refresh_devices,
        LoopEvent::Refreshed => l.phase is AwaitRefresh,
        _ => false,
    }
}

/// The effects of a step on a state.
pub open spec fn step_effects(
    l: PollLoopView,
    event: LoopEvent<'_>,
    pre: AppState,
    now_ms: u64,
    window_focused: bool,
) -> Seq<Effect> {
    if !in_turn(l.phase, event) {
        Seq::<Effect>::empty()
    } else if reads_open_device(l, event, planned(pre, l, now_ms)) {
        ready_effects(pre)
    } else {
        match event {
            LoopEvent::Resumed => if at_round_end(l.phase) {
                shutdown_processed(pre.core, pre.settings@, now_ms, window_focused).1
            } else {
                Seq::<Effect>::empty()
            },
            LoopEvent::ApiFailed(message) => layer_failure_effects(pre, message@),
            LoopEvent::RefreshFailed(message) => layer_failure_effects(pre, message@),
            LoopEvent::Listed(devices) => if ups_positions(devices@).len() == 0 {
                no_device_effects(pre)
            } else {
                Seq::<Effect>::empty()
            },
            LoopEvent::Opened { .. } => ready_effects(pre),
            LoopEvent::OpenFailed { message, .. } => only_if(
                error_is_news(opt_text(pre.last_error), message@),
                seq![Effect::EmitError],
            ),
            LoopEvent::Read(read) => read_effects(pre, read, now_ms, window_focused),
            _ => Seq::<Effect>::empty(),
        }
    }
}

impl AppState {
    /// What holds of the state after a step of the loop.
    pub open spec fn after_step(
        self,
        pre: AppState,
        l: PollLoopView,
        event: LoopEvent<'_>,
        now_ms: u64,
        window_focused: bool,
    ) -> bool {
        if !in_turn(l.phase, event) {
            self == pre
        } else if reads_open_device(l, event, planned(pre, l, now_ms)) {
            self.made_ready(pre, now_ms) && self.device_info == pre.device_info
        } else {
            match event {
                LoopEvent::Resumed => if at_round_end(l.phase) {
                    self.follows(
                        pre,
                        shutdown_processed(pre.core, pre.settings@, now_ms, window_focused),
                        now_ms,
                    )
                } else {
                    self == pre
                },
                LoopEvent::ApiFailed(message) => self.lost_device(pre, message@, now_ms),
                LoopEvent::RefreshFailed(message) => self.lost_device(pre, message@, now_ms),
                LoopEvent::Listed(devices) => if ups_positions(devices@).len() == 0 {
                    self.found_no_device(pre, now_ms)
                } else {
                    self == pre
                },
                LoopEvent::Opened { manufacturer, product } => {
                    &&& self.made_ready(pre, now_ms)
                    &&& info_view(self.device_info) == Some(
                        seen_device(
                            info_view(pre.device_info),
                            opt_text(manufacturer),
                            opt_text(product),
                        ),
                    )
                },
                LoopEvent::OpenFailed { manufacturer, product, message } => {
                    &&& self.core == pre.core
                    &&& self.settings == pre.settings
                    &&& self.events == pre.events
                    &&& self.data_history == pre.data_history
                    &&& self.last_status == pre.last_status
                    &&& opt_text(self.last_error) == Some(message@)
                    &&& info_view(self.device_info) == Some(
                        seen_device(
                            info_view(pre.device_info),
                            opt_text(manufacturer),
                            opt_text(product),
                        ),
                    )
                },
                LoopEvent::Read(read) => self.took_read(pre, read, now_ms, window_focused),
                _ => self == pre,
            }
        }
    }
}

fn as_name(name: &Option<String>) -> (r: Option<&str>)
    ensures
        str_text(r) == opt_text(*name),
{
    match name {
        Some(n) => Some(n.as_str()),
        None => None,
    }
}

impl PollLoop {
    /// The loop before its first round.
    pub fn new() -> (r: Self)
        ensures
            r@ == initial_loop(),
    {
        PollLoop {
            api_ready: false,
            device_open: false,
            last_device_refresh_ms: 0,
            round_started_ms: 0,
            plan: TickPlan { has_recent_status: false, read_timeout_ms: 90, refresh_devices: true },
            phase: LoopPhase::Idle,
            candidates: Vec::new(),
        }
    }

    fn give_up(&mut self) -> (action: LoopAction)
        ensures
            (final(self)@, action) == given_up(old(self)@),
    {
        self.phase = LoopPhase::RetryEnd;
        self.candidates = Vec::new();
        LoopAction::Proceed
    }

    fn leave_poll(&mut self) -> (action: LoopAction)
        ensures
            (final(self)@, action) == poll_left(old(self)@),
    {
        self.phase = LoopPhase::RoundEnd;
        self.candidates = Vec::new();
        LoopAction::Proceed
    }

    fn try_candidate(&mut self) -> (action: LoopAction)
        ensures
            (final(self)@, action) == candidate_tried(old(self)@, old(self)@.candidates),
    {
        if self.candidates.len() == 0 {
            self.leave_poll()
        } else {
            self.phase = LoopPhase::AwaitOpen;
            LoopAction::Open { index: self.candidates[0] }
        }
    }

    /// Enters the poll of a round: with a device open the monitor counts
    /// as connected and the device is read, without one the devices are
    /// listed.
    fn poll_ups(&mut self, state: &mut AppState, now_ms: u64, effects: &mut Vec<Effect>) -> (action:
        LoopAction)
        ensures
            (final(self)@, action) == poll_entered(old(self)@),
            old(self).device_open ==> final(state).made_ready(*old(state), now_ms) && final(state).device_info == old(state).device_info && final(effects)@ == old(effects)@
                + ready_effects(*old(state)),
            !old(self).device_open ==> *final(state) == *old(state) && final(effects)@ == old(effects)@,
    {
        if self.device_open {
            state.device_ready(now_ms, effects);
            self.phase = LoopPhase::AwaitRead;
            LoopAction::Read { timeout_ms: device_read_timeout_ms(self.plan.read_timeout_ms) }
        } else {
            self.phase = LoopPhase::AwaitList;
            LoopAction::ListDevices
        }
    }

    fn enter_layer(&mut self, state: &mut AppState, now_ms: u64, effects: &mut Vec<Effect>) -> (action:
        LoopAction)
        ensures
            (final(self)@, action) == layer_entered(old(self)@),
            old(self).device_open && !old(self).plan.refresh_devices ==> final(state).made_ready(
                *old(state),
                now_ms,
            ) && final(state).device_info == old(state).device_info && final(effects)@ == old(effects)@ + ready_effects(*old(state)),
            !(old(self).device_open && !old(self).plan.refresh_devices) ==> *final(state) == *old(state) && final(effects)@ == old(effects)@,
    {
        if self.plan.refresh_devices {
            self.phase = LoopPhase::AwaitRefresh;
            LoopAction::RefreshDevices
        } else {
            self.poll_ups(state, now_ms, effects)
        }
    }

    fn begin_round(&mut self, state: &mut AppState, now_ms: u64, effects: &mut Vec<Effect>) -> (action:
        LoopAction)
        ensures
            (final(self)@, action) == round_entered(
                old(self)@,
                planned(*old(state), old(self)@, now_ms),
                now_ms,
            ),
            reads_open_device(
                PollLoopView { phase: LoopPhase::Idle, ..old(self)@ },
                LoopEvent::Resumed,
                planned(*old(state), old(self)@, now_ms),
            ) ==> final(state).made_ready(*old(state), now_ms) && final(state).device_info == old(state).device_info && final(effects)@ == old(effects)@ + ready_effects(*old(state)),
            !reads_open_device(
                PollLoopView { phase: LoopPhase::Idle, ..old(self)@ },
                LoopEvent::Resumed,
                planned(*old(state), old(self)@, now_ms),
            ) ==> *final(state) == *old(state) && final(effects)@ == old(effects)@,
    {
        self.plan = state.plan_tick(self.device_open, self.last_device_refresh_ms, now_ms);
        self.round_started_ms = now_ms;
        if !self.api_ready {
            self.phase = LoopPhase::AwaitApi;
            LoopAction::CreateApi
        } else {
            self.enter_layer(state, now_ms, effects)
        }
    }

    fn end_round(
        &mut self,
        state: &mut AppState,
        now_ms: u64,
        window_focused: bool,
        effects: &mut Vec<Effect>,
    ) -> (action: LoopAction)
        ensures
            final(self)@ == (PollLoopView { phase: LoopPhase::Idle, ..old(self)@ }),
            action == (LoopAction::Sleep {
                ms: if old(self).phase is RetryEnd {
                    RETRY_PAUSE_MS
                } else {
                    pause_of(
                        final(state).core.is_connected,
                        old(self).plan.has_recent_status,
                        final(state).settings.polling_interval,
                        old(self).plan.read_timeout_ms,
                    )
                },
            }),
            final(state).follows(
                *old(state),
                shutdown_processed(old(state).core, old(state).settings@, now_ms, window_focused),
                now_ms,
            ),
            final(effects)@ == old(effects)@ + shutdown_processed(
                old(state).core,
                old(state).settings@,
                now_ms,
                window_focused,
            ).1,
    {
        state.process_pending_shutdown(now_ms, window_focused, effects);
        let ms = match self.phase {
            LoopPhase::RetryEnd => RETRY_PAUSE_MS,
            _ => state.tick_pause(self.plan),
        };
        self.phase = LoopPhase::Idle;
        LoopAction::Sleep { ms }
    }

    fn on_opened(
        &mut self,
        state: &mut AppState,
        manufacturer: &Option<String>,
        product: &Option<String>,
        now_ms: u64,
        effects: &mut Vec<Effect>,
    ) -> (action: LoopAction)
        ensures
            final(self)@ == (PollLoopView {
                device_open: true,
                phase: LoopPhase::AwaitFirstRead,
                candidates: Seq::<usize>::empty(),
                ..old(self)@
            }),
            action == (LoopAction::Read {
                timeout_ms: first_timeout(old(self).plan.read_timeout_ms),
            }),
            final(state).made_ready(*old(state), now_ms),
            info_view(final(state).device_info) == Some(
                seen_device(
                    info_view(old(state).device_info),
                    opt_text(*manufacturer),
                    opt_text(*product),
                ),
            ),
            final(effects)@ == old(effects)@ + ready_effects(*old(state)),
    {
        state.note_device(as_name(manufacturer), as_name(product));
        state.device_ready(now_ms, effects);
        self.device_open = true;
        self.phase = LoopPhase::AwaitFirstRead;
        self.candidates = Vec::new();
        LoopAction::Read {
            timeout_ms: device_read_timeout_ms(first_read_timeout_ms(self.plan.read_timeout_ms)),
        }
    }

    fn on_open_failed(
        &mut self,
        state: &mut AppState,
        manufacturer: &Option<String>,
        product: &Option<String>,
        message: String,
        effects: &mut Vec<Effect>,
    ) -> (action: LoopAction)
        ensures
            (final(self)@, action) == candidate_tried(old(self)@, rest_of(old(self)@.candidates)),
            final(state).core == old(state).core,
            final(state).settings == old(state).settings,
            final(state).events == old(state).events,
            final(state).data_history == old(state).data_history,
            final(state).last_status == old(state).last_status,
            opt_text(final(state).last_error) == Some(message@),
            info_view(final(state).device_info) == Some(
                seen_device(
                    info_view(old(state).device_info),
                    opt_text(*manufacturer),
                    opt_text(*product),
                ),
            ),
            final(effects)@ == old(effects)@ + only_if(
                error_is_news(opt_text(old(state).last_error), message@),
                seq![Effect::EmitError],
            ),
    {
        state.note_device(as_name(manufacturer), as_name(product));
        state.emit_error_once(message, effects);
        if self.candidates.len() > 0 {
            self.candidates.remove(0);
            assert(self.candidates@ =~= rest_of(old(self)@.candidates));
        }
        self.try_candidate()
    }

    /// Takes what the last action came to and decides the next action.
    /// `now_ms` is the time of the call, `window_focused` whether the main
    /// window is both visible and focused.
    pub fn step(
        &mut self,
        state: &mut AppState,
        event: LoopEvent<'_>,
        now_ms: u64,
        window_focused: bool,
        effects: &mut Vec<Effect>,
    ) -> (action: LoopAction)
        ensures
            (final(self)@, action) == loop_step(
                old(self)@,
                event,
                planned(*old(state), old(self)@, now_ms),
                now_ms,
                pause_of(
                    final(state).core.is_connected,
                    old(self).plan.has_recent_status,
                    final(state).settings.polling_interval,
                    old(self).plan.read_timeout_ms,
                ),
            ),
            final(state).after_step(*old(state), old(self)@, event, now_ms, window_focused),
            final(effects)@ == old(effects)@ + step_effects(
                old(self)@,
                event,
                *old(state),
                now_ms,
                window_focused,
            ),
    {
        proof {
            assert(old(effects)@ + Seq::<Effect>::empty() =~= old(effects)@);
        }
        match event {
            LoopEvent::Resumed => {
                match self.phase {
                    LoopPhase::Idle => self.begin_round(state, now_ms, effects),
                    LoopPhase::RoundEnd | LoopPhase::RetryEnd => self.end_round(
                        state,
                        now_ms,
                        window_focused,
                        effects,
                    ),
                    _ => self.give_up(),
                }
            },
            LoopEvent::ApiCreated => {
                match self.phase {
                    LoopPhase::AwaitApi => {
                        self.api_ready = true;
                        self.enter_layer(state, now_ms, effects)
                    },
                    _ => self.give_up(),
                }
            },
            LoopEvent::ApiFailed(message) => {
                match self.phase {
                    LoopPhase::AwaitApi => {
                        state.device_layer_failed(message, now_ms, effects);
                        self.give_up()
                    },
                    _ => self.give_up(),
                }
            },
            LoopEvent::Refreshed => {
                match self.phase {
                    LoopPhase::AwaitRefresh => {
                        self.last_device_refresh_ms = self.round_started_ms;
                        self.poll_ups(state, now_ms, effects)
                    },
                    _ => self.give_up(),
                }
            },
            LoopEvent::RefreshFailed(message) => {
                match self.phase {
                    LoopPhase::AwaitRefresh => {
                        state.device_layer_failed(message, now_ms, effects);
                        self.api_ready = false;
                        self.device_open = false;
                        self.give_up()
                    },
                    _ => self.give_up(),
                }
            },
            LoopEvent::Listed(devices) => {
                match self.phase {
                    LoopPhase::AwaitList => {
                        self.candidates = select_ups_devices(&devices);
                        if self.candidates.len() == 0 {
                            state.no_device_found(now_ms, effects);
                        }
                        self.try_candidate()
                    },
                    _ => self.give_up(),
                }
            },
            LoopEvent::Opened { manufacturer, product } => {
                match self.phase {
                    LoopPhase::AwaitOpen => self.on_opened(
                        state,
                        &manufacturer,
                        &product,
                        now_ms,
                        effects,
                    ),
                    _ => self.give_up(),
                }
            },
            LoopEvent::OpenFailed { manufacturer, product, message } => {
                match self.phase {
                    LoopPhase::AwaitOpen => self.on_open_failed(
                        state,
                        &manufacturer,
                        &product,
                        message,
                        effects,
                    ),
                    _ => self.give_up(),
                }
            },
            LoopEvent::Read(read) => {
                match self.phase {
                    LoopPhase::AwaitRead | LoopPhase::AwaitFirstRead => {
                        let keep = state.read_one_packet(read, now_ms, window_focused, effects);
                        self.device_open = keep;
                        self.leave_poll()
                    },
                    _ => self.give_up(),
                }
            },
        }
    }
}

// ---------------------------------------------------------------------
// Laws of the loop
// ---------------------------------------------------------------------
/// Every read that the loop asks for waits at least a tenth of a second
/// and at most six tenths; the read behind a successful open waits at most
/// 150 ms.
pub proof fn lemma_read_waits_are_bounded(state: AppState, l: PollLoopView, now_ms: u64)
    ensures
        MIN_READ_TIMEOUT_MS <= device_timeout(planned(state, l, now_ms).read_timeout_ms) <= 600,
        MIN_READ_TIMEOUT_MS <= first_timeout(planned(state, l, now_ms).read_timeout_ms)
            <= FIRST_READ_TIMEOUT_MS,
{
}

/// The loop never sleeps without the check of the shutdown deadline: the
/// only step that gives a sleep is the one at the end of a round, whether
/// the round went well or was given up, and what that step does to the
/// state is the check and nothing else.
pub proof fn lemma_sleep_follows_deadline_check(
    l: PollLoopView,
    event: LoopEvent<'_>,
    plan: TickPlan,
    pre: AppState,
    now_ms: u64,
    pause: u64,
    window_focused: bool,
)
    ensures
        loop_step(l, event, plan, now_ms, pause).1 is Sleep <==> at_round_end(l.phase) && event
            is Resumed,
        loop_step(l, event, plan, now_ms, pause).1 is Sleep ==> step_effects(
            l,
            event,
            pre,
            now_ms,
            window_focused,
        ) == shutdown_processed(pre.core, pre.settings@, now_ms, window_focused).1,
{
}

/// Every way out of a round leads to the check of the shutdown deadline:
/// a read, whatever it comes to, a device layer that fails to start or to
/// scan, and an event out of turn all leave the loop where the deadline is
/// next, with nothing to do outside before it.
pub proof fn lemma_rounds_end_in_deadline_check(
    l: PollLoopView,
    event: LoopEvent<'_>,
    plan: TickPlan,
    now_ms: u64,
    pause: u64,
)
    requires
        event is Read || event is ApiFailed || event is RefreshFailed || !in_turn(l.phase, event),
    ensures
        at_round_end(loop_step(l, event, plan, now_ms, pause).0.phase),
        loop_step(l, event, plan, now_ms, pause).1 is Proceed,
{
}

/// The device is open behind a read exactly where the read did not fail:
/// a read that fails closes it, the first one behind an open like any
/// later one.
pub proof fn lemma_failed_read_closes_device(
    l: PollLoopView,
    read: ReadResult<'_>,
    plan: TickPlan,
    now_ms: u64,
    pause: u64,
)
    requires
        l.phase is AwaitRead || l.phase is AwaitFirstRead,
    ensures
        loop_step(l, LoopEvent::Read(read), plan, now_ms, pause).0.device_open == !(read
            is Failed),
{
}

} // verus!
