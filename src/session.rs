//! The decisions of a BLE acquisition session.
//!
//! A session walks the adapters, scans each one, inspects the peripherals it
//! found, connects to the glove, discovers its services, signals readiness,
//! and then reads and publishes frames for as long as the glove stays
//! connected. The session itself performs no I/O: its driver performs the
//! action that the session asks for and hands back the outcome as an event.
//!
//! Reconnection policy: a glove that disconnects is not reconnected. The
//! session moves on to the next peripheral of the current scan, then to the
//! next adapter, and stops once every adapter has been scanned.
use vstd::prelude::*;
use crate::frame::{
    flex_staged, imu_staged, signed_at, word_at, SensorFrame, FLEX_PAYLOAD_LEN, IMU_PAYLOAD_LEN,
};

verus! {

/// The advertised local name of the glove.
pub const TARGET_NAME: &'static str = "Ruka";

/// The name shown for a peripheral that advertises none.
pub const UNKNOWN_NAME: &'static str = "(peripheral name unknown)";

/// The flex characteristic, `00002af9-0000-1000-8000-00805f9b34fb`.
pub const FLEX_CHARACTERISTIC: u128 = 0x00002af9_0000_1000_8000_00805f9b34fb;

/// The IMU characteristic, `00002713-0000-1000-8000-00805f9b34fb`.
pub const IMU_CHARACTERISTIC: u128 = 0x00002713_0000_1000_8000_00805f9b34fb;

/// How long each adapter scans before its peripherals are listed.
pub const SCAN_WINDOW_SECS: u64 = 20;

/// Target pause between two read cycles (about 60 cycles a second).
pub const CYCLE_INTERVAL_MS: u64 = 16;

/// The glove characteristics that are read.
#[derive(PartialEq, Eq, Structural, Clone, Copy, Debug)]
pub enum Channel {
    Flex,
    Imu,
}

/// Why a session ended.
#[derive(PartialEq, Eq, Structural, Clone, Copy, Debug)]
pub enum StopReason {
    /// The host has no BLE adapter; nothing is retried.
    NoAdapters,
    /// Every adapter was scanned and no glove remains connected.
    Exhausted,
}

/// Where a session stands.
#[derive(PartialEq, Eq, Structural, Clone, Copy, Debug)]
pub enum SessionPhase {
    ListingAdapters,
    Scanning,
    ListingPeripherals,
    Inspecting,
    Connecting,
    Discovering,
    MarkingReady,
    Reading,
    Publishing,
    Stopped(StopReason),
}

/// The outcome of an action, reported by the driver.
pub enum SessionEvent {
    /// The adapters were listed.
    AdaptersListed { count: usize },
    /// The scan on the current adapter ran for its window.
    ScanFinished,
    /// The peripherals that the current adapter found were listed.
    PeripheralsListed { count: usize },
    /// The current peripheral's advertised name and connection status.
    PeripheralInspected { name: Option<String>, connected: bool },
    /// A connection attempt succeeded or failed.
    ConnectFinished { ok: bool },
    /// Services were discovered; the peripheral's connection status after it.
    ServicesDiscovered { connected: bool },
    /// Readiness was signalled to the consumer.
    ReadyMarked,
    /// One characteristic was read; `None` when the read failed.
    CharacteristicRead { channel: Channel, data: Option<Vec<u8>> },
    /// Every characteristic of this cycle was read; the connection status.
    CycleEnded { connected: bool },
    /// The staged frame was handed to the consumer.
    Published,
}

/// What the driver is asked to do next.
#[derive(Clone, Copy, Debug)]
pub enum SessionAction {
    ListAdapters,
    /// Start an unfiltered scan on an adapter and wait for the scan window.
    Scan { adapter: usize },
    ListPeripherals { adapter: usize },
    /// Report a peripheral's name and connection status.
    Inspect { adapter: usize, peripheral: usize },
    Connect { adapter: usize, peripheral: usize },
    DiscoverServices { adapter: usize, peripheral: usize },
    /// Signal readiness to the consumer.
    MarkReady,
    /// Read every flex and IMU characteristic of the peripheral, report each
    /// read, then end the cycle.
    ReadCycle { adapter: usize, peripheral: usize },
    /// Hand this frame to the consumer.
    Publish { frame: SensorFrame },
    Stop { reason: StopReason },
}

/// A session as a mathematical value.
pub struct SessionView {
    pub phase: SessionPhase,
    pub adapters: usize,
    pub adapter: usize,
    pub peripherals: usize,
    pub peripheral: usize,
    /// The last connection status reported for the current peripheral.
    pub connected: bool,
    /// Whether readiness has been signalled in this session.
    pub ready_marked: bool,
    /// The staged frame's fingers and IMU values.
    pub fingers: Seq<u16>,
    pub imu: Seq<i16>,
}

/// Which characteristic a UUID names, if one that is read.
pub open spec fn channel_spec(uuid: u128) -> Option<Channel> {
    if uuid == FLEX_CHARACTERISTIC {
        Some(Channel::Flex)
    } else if uuid == IMU_CHARACTERISTIC {
        Some(Channel::Imu)
    } else {
        None
    }
}

/// Whether an advertised name is exactly the glove's.
pub open spec fn names_target(name: Option<String>) -> bool {
    name matches Some(n) && n@ == TARGET_NAME@
}

pub open spec fn has_adapter(p: SessionPhase) -> bool {
    match p {
        SessionPhase::ListingAdapters => false,
        SessionPhase::Stopped(_) => false,
        _ => true,
    }
}

pub open spec fn has_peripheral(p: SessionPhase) -> bool {
    match p {
        SessionPhase::Inspecting => true,
        SessionPhase::Connecting => true,
        SessionPhase::Discovering => true,
        SessionPhase::MarkingReady => true,
        SessionPhase::Reading => true,
        SessionPhase::Publishing => true,
        _ => false,
    }
}

/// The session's invariant: the current adapter and peripheral exist, and
/// frames are read and published only after readiness was signalled.
pub open spec fn session_wf(s: SessionView) -> bool {
    &&& s.fingers.len() == 5
    &&& s.imu.len() == 6
    &&& has_adapter(s.phase) ==> s.adapter < s.adapters
    &&& has_peripheral(s.phase) ==> s.peripheral < s.peripherals
    &&& (s.phase == SessionPhase::Reading || s.phase == SessionPhase::Publishing) ==> s.ready_marked
}

/// The next adapter's scan, or the end of the session.
pub open spec fn next_adapter(s: SessionView) -> SessionView {
    if s.adapter + 1 < s.adapters {
        SessionView { phase: SessionPhase::Scanning, adapter: (s.adapter + 1) as usize, ..s }
    } else {
        SessionView { phase: SessionPhase::Stopped(StopReason::Exhausted), ..s }
    }
}

/// The next peripheral of the current scan, or the next adapter.
pub open spec fn next_peripheral(s: SessionView) -> SessionView {
    if s.peripheral + 1 < s.peripherals {
        SessionView {
            phase: SessionPhase::Inspecting,
            peripheral: (s.peripheral + 1) as usize,
            ..s
        }
    } else {
        next_adapter(s)
    }
}

/// The session after an event. An event that does not answer the pending
/// action leaves the session as it was.
pub open spec fn after_event(s: SessionView, e: SessionEvent) -> SessionView {
    match (s.phase, e) {
        (SessionPhase::ListingAdapters, SessionEvent::AdaptersListed { count }) => {
            if count == 0 {
                SessionView { phase: SessionPhase::Stopped(StopReason::NoAdapters), ..s }
            } else {
                SessionView { phase: SessionPhase::Scanning, adapters: count, adapter: 0, ..s }
            }
        },
        (SessionPhase::Scanning, SessionEvent::ScanFinished) => {
            SessionView { phase: SessionPhase::ListingPeripherals, ..s }
        },
        (SessionPhase::ListingPeripherals, SessionEvent::PeripheralsListed { count }) => {
            if count == 0 {
                next_adapter(s)
            } else {
                SessionView {
                    phase: SessionPhase::Inspecting,
                    peripherals: count,
                    peripheral: 0,
                    ..s
                }
            }
        },
        (SessionPhase::Inspecting, SessionEvent::PeripheralInspected { name, connected }) => {
            if !names_target(name) {
                next_peripheral(s)
            } else if connected {
                SessionView { phase: SessionPhase::Discovering, ..s }
            } else {
                SessionView { phase: SessionPhase::Connecting, ..s }
            }
        },
        (SessionPhase::Connecting, SessionEvent::ConnectFinished { ok }) => {
            if ok {
                SessionView { phase: SessionPhase::Discovering, ..s }
            } else {
                next_peripheral(s)
            }
        },
        (SessionPhase::Discovering, SessionEvent::ServicesDiscovered { connected }) => {
            SessionView { phase: SessionPhase::MarkingReady, connected, ..s }
        },
        (SessionPhase::MarkingReady, SessionEvent::ReadyMarked) => {
            if s.connected {
                SessionView { phase: SessionPhase::Reading, ready_marked: true, ..s }
            } else {
                next_peripheral(SessionView { ready_marked: true, ..s })
            }
        },
        (SessionPhase::Reading, SessionEvent::CharacteristicRead { channel, data }) => {
            match data {
                Some(d) => match channel {
                    Channel::Flex => SessionView { fingers: flex_staged(s.fingers, d@), ..s },
                    Channel::Imu => SessionView { imu: imu_staged(s.imu, d@), ..s },
                },
                None => s,
            }
        },
        (SessionPhase::Reading, SessionEvent::CycleEnded { connected }) => {
            SessionView { phase: SessionPhase::Publishing, connected, ..s }
        },
        (SessionPhase::Publishing, SessionEvent::Published) => {
            if s.connected {
                SessionView { phase: SessionPhase::Reading, ..s }
            } else {
                next_peripheral(s)
            }
        },
        _ => s,
    }
}

/// Whether `a` is the action that a session in state `s` asks for.
pub open spec fn asks_for(s: SessionView, a: SessionAction) -> bool {
    match s.phase {
        SessionPhase::ListingAdapters => a == SessionAction::ListAdapters,
        SessionPhase::Scanning => a == SessionAction::Scan { adapter: s.adapter },
        SessionPhase::ListingPeripherals => a == SessionAction::ListPeripherals {
            adapter: s.adapter,
        },
        SessionPhase::Inspecting => a == SessionAction::Inspect {
            adapter: s.adapter,
            peripheral: s.peripheral,
        },
        SessionPhase::Connecting => a == SessionAction::Connect {
            adapter: s.adapter,
            peripheral: s.peripheral,
        },
        SessionPhase::Discovering => a == SessionAction::DiscoverServices {
            adapter: s.adapter,
            peripheral: s.peripheral,
        },
        SessionPhase::MarkingReady => a == SessionAction::MarkReady,
        SessionPhase::Reading => a == SessionAction::ReadCycle {
            adapter: s.adapter,
            peripheral: s.peripheral,
        },
        SessionPhase::Publishing => a matches SessionAction::Publish { frame } && frame.fingers@
            == s.fingers && frame.imu@ == s.imu,
        SessionPhase::Stopped(reason) => a == SessionAction::Stop { reason },
    }
}

/// Every event keeps the session's invariant; in particular no frame is read
/// or published before readiness has been signalled.
pub proof fn lemma_events_keep_invariant(s: SessionView, e: SessionEvent)
    requires
        session_wf(s),
    ensures
        session_wf(after_event(s, e)),
        (after_event(s, e).phase == SessionPhase::Reading || after_event(s, e).phase
            == SessionPhase::Publishing) ==> after_event(s, e).ready_marked,
{
}

/// A peripheral whose name is not exactly the glove's is never connected to
/// nor set up: the session goes on to the next peripheral or adapter.
pub proof fn lemma_other_names_skipped(s: SessionView, name: Option<String>, connected: bool)
    requires
        session_wf(s),
        s.phase == SessionPhase::Inspecting,
        !names_target(name),
    ensures
        after_event(s, SessionEvent::PeripheralInspected { name, connected }) == next_peripheral(
            s,
        ),
        after_event(s, SessionEvent::PeripheralInspected { name, connected }).phase
            != SessionPhase::Connecting,
        after_event(s, SessionEvent::PeripheralInspected { name, connected }).phase
            != SessionPhase::Discovering,
{
}

/// A failed read, or a payload of the wrong length for its channel, leaves
/// the staged frame and the whole session as they were.
pub proof fn lemma_bad_read_keeps_frame(s: SessionView, channel: Channel, data: Option<Vec<u8>>)
    requires
        s.phase == SessionPhase::Reading,
        data matches Some(d) ==> (channel == Channel::Flex && d@.len() != FLEX_PAYLOAD_LEN) || (
        channel == Channel::Imu && d@.len() != IMU_PAYLOAD_LEN),
    ensures
        after_event(s, SessionEvent::CharacteristicRead { channel, data }) == s,
{
}

/// With no adapter the session ends at once and for good.
pub proof fn lemma_no_adapters_is_final(s: SessionView, e: SessionEvent)
    requires
        s.phase == SessionPhase::ListingAdapters,
    ensures
        after_event(s, SessionEvent::AdaptersListed { count: 0 }).phase == SessionPhase::Stopped(
            StopReason::NoAdapters,
        ),
        after_event(after_event(s, SessionEvent::AdaptersListed { count: 0 }), e) == after_event(
            s,
            SessionEvent::AdaptersListed { count: 0 },
        ),
{
}

/// The session after a sequence of events, in order.
pub open spec fn after_events(s: SessionView, events: Seq<SessionEvent>) -> SessionView
    decreases events.len(),
{
    if events.len() == 0 {
        s
    } else {
        after_event(after_events(s, events.drop_last()), events.last())
    }
}

/// Whether an event reports a characteristic read.
pub open spec fn is_read(e: SessionEvent) -> bool {
    e is CharacteristicRead
}

/// Whether an event reports a successful read of `ch` whose payload has the
/// length of that channel.
pub open spec fn valid_read(e: SessionEvent, ch: Channel) -> bool {
    match e {
        SessionEvent::CharacteristicRead { channel, data } => channel == ch && match data {
            Some(d) => d@.len() == match ch {
                Channel::Flex => FLEX_PAYLOAD_LEN,
                Channel::Imu => IMU_PAYLOAD_LEN,
            },
            None => false,
        },
        _ => false,
    }
}

/// The payload that a read event carries.
pub open spec fn payload(e: SessionEvent) -> Seq<u8> {
    match e {
        SessionEvent::CharacteristicRead { data: Some(d), .. } => d@,
        _ => Seq::empty(),
    }
}

proof fn lemma_reads_stay_reading(s: SessionView, events: Seq<SessionEvent>)
    requires
        s.phase == SessionPhase::Reading,
        forall|i: int| 0 <= i < events.len() ==> is_read(#[trigger] events[i]),
    ensures
        after_events(s, events).phase == SessionPhase::Reading,
        (forall|i: int| 0 <= i < events.len() ==> !valid_read(#[trigger] events[i], Channel::Flex))
            ==> after_events(s, events).fingers == s.fingers,
        (forall|i: int| 0 <= i < events.len() ==> !valid_read(#[trigger] events[i], Channel::Imu))
            ==> after_events(s, events).imu == s.imu,
        after_events(s, events) == (SessionView {
            fingers: after_events(s, events).fingers,
            imu: after_events(s, events).imu,
            ..s
        }),
    decreases events.len(),
{
    if events.len() > 0 {
        let prefix = events.drop_last();
        assert(forall|i: int| 0 <= i < prefix.len() ==> prefix[i] == events[i]);
        lemma_reads_stay_reading(s, prefix);
        assert(is_read(events[events.len() - 1]));
        assert(!valid_read(events.last(), Channel::Flex) ==> after_events(s, events).fingers
            == after_events(s, prefix).fingers);
    }
}

/// Within one read cycle, whatever reads arrive, in whatever order, with
/// failures and malformed payloads among them, the staged frame holds the
/// values of the last valid payload of each channel; a channel without a
/// valid payload in the cycle keeps its earlier values.
pub proof fn lemma_cycle_keeps_last_valid(
    s: SessionView,
    events: Seq<SessionEvent>,
    ch: Channel,
    k: int,
)
    requires
        s.phase == SessionPhase::Reading,
        forall|i: int| 0 <= i < events.len() ==> is_read(#[trigger] events[i]),
        0 <= k < events.len(),
        valid_read(events[k], ch),
        forall|j: int| k < j < events.len() ==> !valid_read(#[trigger] events[j], ch),
    ensures
        after_events(s, events).phase == SessionPhase::Reading,
        ch == Channel::Flex ==> after_events(s, events).fingers == Seq::new(
            5,
            |i: int| word_at(payload(events[k]), i) as u16,
        ),
        ch == Channel::Imu ==> after_events(s, events).imu == Seq::new(
            6,
            |i: int| signed_at(payload(events[k]), i) as i16,
        ),
    decreases events.len(),
{
    let prefix = events.drop_last();
    assert(forall|i: int| 0 <= i < prefix.len() ==> prefix[i] == events[i]);
    lemma_reads_stay_reading(s, prefix);
    if k < events.len() - 1 {
        lemma_cycle_keeps_last_valid(s, prefix, ch, k);
        assert(!valid_read(events[events.len() - 1], ch));
        assert(is_read(events[events.len() - 1]));
    } else {
        assert(is_read(events[k]));
    }
}

/// Which characteristic a UUID names: the flex one, the IMU one, or neither.
pub fn channel_of(uuid: u128) -> (r: Option<Channel>)
    ensures
        r == channel_spec(uuid),
{
    if uuid == FLEX_CHARACTERISTIC {
        Some(Channel::Flex)
    } else if uuid == IMU_CHARACTERISTIC {
        Some(Channel::Imu)
    } else {
        None
    }
}

/// Whether an advertised name is exactly the glove's (case-sensitive); a
/// peripheral without a name never matches.
pub fn is_target_name(name: &Option<String>) -> (r: bool)
    ensures
        r == names_target(*name),
{
    match name {
        Some(n) => {
            let target = String::from_str(TARGET_NAME);
            *n == target
        },
        None => false,
    }
}

/// The name to show for a peripheral: its advertised name, or a placeholder.
pub fn display_name(name: &Option<String>) -> (r: String)
    ensures
        name matches Some(n) ==> r@ == n@,
        name is None ==> r@ == UNKNOWN_NAME@,
{
    match name {
        Some(n) => n.clone(),
        None => String::from_str(UNKNOWN_NAME),
    }
}

/// A BLE acquisition session, driven one event at a time.
pub struct BleSession {
    phase: SessionPhase,
    adapters: usize,
    adapter: usize,
    peripherals: usize,
    peripheral: usize,
    connected: bool,
    ready_marked: Ghost<bool>,
    frame: SensorFrame,
}

impl View for BleSession {
    type V = SessionView;

    closed spec fn view(&self) -> SessionView {
        SessionView {
            phase: self.phase,
            adapters: self.adapters,
            adapter: self.adapter,
            peripherals: self.peripherals,
            peripheral: self.peripheral,
            connected: self.connected,
            ready_marked: self.ready_marked@,
            fingers: self.frame.fingers@,
            imu: self.frame.imu@,
        }
    }
}

impl BleSession {
    /// A session about to list the adapters, with a frame of zeros staged.
    pub fn new() -> (r: BleSession)
        ensures
            session_wf(r@),
            r@.phase == SessionPhase::ListingAdapters,
            !r@.ready_marked,
            r@.fingers == Seq::new(5, |i: int| 0u16),
            r@.imu == Seq::new(6, |i: int| 0i16),
    {
        let r = BleSession {
            phase: SessionPhase::ListingAdapters,
            adapters: 0,
            adapter: 0,
            peripherals: 0,
            peripheral: 0,
            connected: false,
            ready_marked: Ghost(false),
            frame: SensorFrame::new(),
        };
        assert(r@.fingers =~= Seq::new(5, |i: int| 0u16));
        assert(r@.imu =~= Seq::new(6, |i: int| 0i16));
        r
    }

    /// The action that the session waits on.
    pub fn pending(&self) -> (r: SessionAction)
        ensures
            asks_for(self@, r),
    {
        match self.phase {
            SessionPhase::ListingAdapters => SessionAction::ListAdapters,
            SessionPhase::Scanning => SessionAction::Scan { adapter: self.adapter },
            SessionPhase::ListingPeripherals => SessionAction::ListPeripherals {
                adapter: self.adapter,
            },
            SessionPhase::Inspecting => SessionAction::Inspect {
                adapter: self.adapter,
                peripheral: self.peripheral,
            },
            SessionPhase::Connecting => SessionAction::Connect {
                adapter: self.adapter,
                peripheral: self.peripheral,
            },
            SessionPhase::Discovering => SessionAction::DiscoverServices {
                adapter: self.adapter,
                peripheral: self.peripheral,
            },
            SessionPhase::MarkingReady => SessionAction::MarkReady,
            SessionPhase::Reading => SessionAction::ReadCycle {
                adapter: self.adapter,
                peripheral: self.peripheral,
            },
            SessionPhase::Publishing => SessionAction::Publish { frame: self.frame },
            SessionPhase::Stopped(reason) => SessionAction::Stop { reason },
        }
    }

    /// Whether the session has ended.
    pub fn is_stopped(&self) -> (r: bool)
        ensures
            r == (self@.phase matches SessionPhase::Stopped(_)),
    {
        match self.phase {
            SessionPhase::Stopped(_) => true,
            _ => false,
        }
    }

    fn advance_adapter(&mut self)
        requires
            session_wf(old(self)@),
            has_adapter(old(self)@.phase),
        ensures
            final(self)@ == next_adapter(old(self)@),
    {
        if self.adapter + 1 < self.adapters {
            self.phase = SessionPhase::Scanning;
            self.adapter = self.adapter + 1;
        } else {
            self.phase = SessionPhase::Stopped(StopReason::Exhausted);
        }
    }

    fn advance_peripheral(&mut self)
        requires
            session_wf(old(self)@),
            has_peripheral(old(self)@.phase),
        ensures
            final(self)@ == next_peripheral(old(self)@),
    {
        if self.peripheral + 1 < self.peripherals {
            self.phase = SessionPhase::Inspecting;
            self.peripheral = self.peripheral + 1;
        } else {
            self.advance_adapter();
        }
    }

    /// Takes the outcome of the pending action and returns the next action.
    pub fn step(&mut self, event: SessionEvent) -> (r: SessionAction)
        requires
            session_wf(old(self)@),
        ensures
            final(self)@ == after_event(old(self)@, event),
            session_wf(final(self)@),
            asks_for(final(self)@, r),
    {
        match (self.phase, event) {
            (SessionPhase::ListingAdapters, SessionEvent::AdaptersListed { count }) => {
                if count == 0 {
                    self.phase = SessionPhase::Stopped(StopReason::NoAdapters);
                } else {
                    self.phase = SessionPhase::Scanning;
                    self.adapters = count;
                    self.adapter = 0;
                }
            },
            (SessionPhase::Scanning, SessionEvent::ScanFinished) => {
                self.phase = SessionPhase::ListingPeripherals;
            },
            (SessionPhase::ListingPeripherals, SessionEvent::PeripheralsListed { count }) => {
                if count == 0 {
                    self.advance_adapter();
                } else {
                    self.phase = SessionPhase::Inspecting;
                    self.peripherals = count;
                    self.peripheral = 0;
                }
            },
            (SessionPhase::Inspecting, SessionEvent::PeripheralInspected { name, connected }) => {
                if !is_target_name(&name) {
                    self.advance_peripheral();
                } else if connected {
                    self.phase = SessionPhase::Discovering;
                } else {
                    self.phase = SessionPhase::Connecting;
                }
            },
            (SessionPhase::Connecting, SessionEvent::ConnectFinished { ok }) => {
                if ok {
                    self.phase = SessionPhase::Discovering;
                } else {
                    self.advance_peripheral();
                }
            },
            (SessionPhase::Discovering, SessionEvent::ServicesDiscovered { connected }) => {
                self.phase = SessionPhase::MarkingReady;
                self.connected = connected;
            },
            (SessionPhase::MarkingReady, SessionEvent::ReadyMarked) => {
                self.ready_marked = Ghost(true);
                if self.connected {
                    self.phase = SessionPhase::Reading;
                } else {
                    self.advance_peripheral();
                }
            },
            (SessionPhase::Reading, SessionEvent::CharacteristicRead { channel, data }) => {
                match data {
                    Some(d) => match channel {
                        Channel::Flex => self.frame.stage_flex(d.as_slice()),
                        Channel::Imu => self.frame.stage_imu(d.as_slice()),
                    },
                    None => {},
                }
            },
            (SessionPhase::Reading, SessionEvent::CycleEnded { connected }) => {
                self.phase = SessionPhase::Publishing;
                self.connected = connected;
            },
            (SessionPhase::Publishing, SessionEvent::Published) => {
                if self.connected {
                    self.phase = SessionPhase::Reading;
                } else {
                    self.advance_peripheral();
                }
            },
            _ => {},
        }
        self.pending()
    }
}

} // verus!
