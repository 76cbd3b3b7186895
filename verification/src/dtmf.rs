//! Telephone events in RTP (RFC 4733): recognising a key press in a stream of
//! packets and reporting it once.

use crate::bytes::{be16_at, be32_at, copy_range, read_be16, read_be32};
use crate::rtp::{find_payload_start, has_padding, payload_start};
use vstd::prelude::*;

verus! {

/// How many presses and finished events are remembered together.
pub const STATE_CAPACITY: usize = 32;

/// How long a finished event is remembered, in nanoseconds.
pub const RECENT_TTL: u64 = 2_000_000_000;

/// A press ends when nothing was heard of it for this long.
pub const IDLE_TIMEOUT: u64 = 250_000_000;

/// The longest press.
pub const MAX_PRESS_DURATION: u64 = 10_000_000_000;

/// The longest press in milliseconds.
pub const MAX_PRESS_DURATION_MS: u32 = 10_000;

#[derive(Debug, Clone, Copy, PartialEq, Eq, PartialOrd, Ord, Hash, Structural)]
pub enum DtmfDigit {
    D0,
    D1,
    D2,
    D3,
    D4,
    D5,
    D6,
    D7,
    D8,
    D9,
    Star,
    Pound,
    A,
    B,
    C,
    D,
    Flash,
}

/// The telephone events that a peer announced: bit `n` of the mask stands for
/// event `n`. Events above 16 carry no digit and are left out.
#[derive(Debug, Clone, Copy, PartialEq, Eq, Structural)]
pub struct DtmfEventSet {
    pub mask: u32,
}

impl DtmfEventSet {
    pub open spec fn has(self, event: u8) -> bool {
        event <= 16 && (self.mask >> (event as u32)) % 2 == 1
    }

    pub fn contains(&self, event: u8) -> (found: bool)
        ensures
            found == self.has(event),
    {
        event <= 16 && (self.mask >> (event as u32)) % 2 == 1
    }
}

/// What was negotiated for telephone events.
#[derive(Debug, Clone, Copy, PartialEq, Eq, Structural)]
pub struct DtmfCapability {
    pub payload_type: u8,
    pub clock_rate: u32,
    pub events: DtmfEventSet,
    pub detectable: bool,
}

#[derive(Debug, Clone, Copy, PartialEq, Eq, Structural)]
pub enum DtmfMediaMode {
    Transparent,
    Observe,
    Collect,
}

#[derive(Debug, Clone, Copy, PartialEq, Eq)]
pub struct ParserConfig {
    pub generation: u64,
    pub capability: Option<DtmfCapability>,
    pub mode: DtmfMediaMode,
}

/// The capability where it can be detected.
pub open spec fn detectable(capability: Option<DtmfCapability>) -> Option<DtmfCapability> {
    match capability {
        Some(value) => if value.detectable {
            Some(value)
        } else {
            None
        },
        None => None,
    }
}

impl ParserConfig {
    pub fn disabled(generation: u64) -> (config: Self)
        ensures
            config == (ParserConfig {
                generation,
                capability: None,
                mode: DtmfMediaMode::Transparent,
            }),
    {
        ParserConfig { generation, capability: None, mode: DtmfMediaMode::Transparent }
    }

    pub fn transparent(generation: u64, capability: Option<DtmfCapability>) -> (config: Self)
        ensures
            config == (ParserConfig {
                generation,
                capability: detectable(capability),
                mode: DtmfMediaMode::Transparent,
            }),
    {
        Self::with_mode(generation, capability, DtmfMediaMode::Transparent)
    }

    pub fn with_mode(
        generation: u64,
        capability: Option<DtmfCapability>,
        mode: DtmfMediaMode,
    ) -> (config: Self)
        ensures
            config == (ParserConfig { generation, capability: detectable(capability), mode }),
    {
        let kept = match capability {
            Some(value) => if value.detectable {
                Some(value)
            } else {
                None
            },
            None => None,
        };
        ParserConfig { generation, capability: kept, mode }
    }

    /// The capability by which packets are examined: none in transparent mode.
    pub open spec fn active(self) -> Option<DtmfCapability> {
        if self.mode == DtmfMediaMode::Transparent {
            None
        } else {
            self.capability
        }
    }

    pub fn active_capability(&self) -> (capability: Option<DtmfCapability>)
        ensures
            capability == self.active(),
    {
        if self.mode == DtmfMediaMode::Transparent {
            None
        } else {
            self.capability
        }
    }

    /// Whether two configurations are the same.
    pub fn same(&self, other: &Self) -> (same: bool)
        ensures
            same == (*self == *other),
    {
        let capability = match (self.capability, other.capability) {
            (Some(a), Some(b)) => a == b,
            (None, None) => true,
            _ => false,
        };
        self.generation == other.generation && capability && self.mode == other.mode
    }
}

#[derive(Debug, Clone, Copy, PartialEq, Eq, Hash, Structural)]
pub struct EventKey {
    pub ssrc: u32,
    pub timestamp: u32,
    pub event: u8,
}

/// A press that has begun and not ended.
#[derive(Debug, Clone, Copy, PartialEq, Eq, Structural)]
pub struct ActivePress {
    pub key: EventKey,
    pub digit: DtmfDigit,
    pub max_duration: u16,
    pub first_seen: u64,
    pub last_seen: u64,
}

/// An event that was reported.
#[derive(Debug, Clone, Copy, PartialEq, Eq, Structural)]
pub struct RecentEvent {
    pub key: EventKey,
    pub completed: u64,
}

#[derive(Debug, Clone, Copy, PartialEq, Eq, Structural)]
pub struct Rfc4733DigitCompleted {
    pub generation: u64,
    pub ssrc: u32,
    pub timestamp: u32,
    pub event_code: u8,
    pub digit: DtmfDigit,
    pub duration_ms: u32,
    pub incomplete_end: bool,
}

#[derive(Debug, Clone, Copy, PartialEq, Eq, Structural)]
pub enum ParserObservation {
    Completed(Rfc4733DigitCompleted),
    Invalid,
}

/// The parts of an RTP packet that the parser reads.
pub struct ParsedRtp {
    pub payload_type: u8,
    pub timestamp: u32,
    pub ssrc: u32,
    pub payload: Vec<u8>,
}

#[verifier::ext_equal]
pub struct RtpPacket {
    pub payload_type: u8,
    pub timestamp: u32,
    pub ssrc: u32,
    pub payload: Seq<u8>,
}

impl ParsedRtp {
    pub open spec fn view(&self) -> RtpPacket {
        RtpPacket {
            payload_type: self.payload_type,
            timestamp: self.timestamp,
            ssrc: self.ssrc,
            payload: self.payload@,
        }
    }
}

/// What a packet holds: `None` where it is no well-formed RTP packet. A padding
/// of no bytes, or of more bytes than follow the header, is malformed.
pub open spec fn rtp_of(p: Seq<u8>) -> Option<RtpPacket> {
    match payload_start(p) {
        None => None,
        Some(start) => {
            let padding = if has_padding(p) {
                p.last() as int
            } else {
                0
            };
            if has_padding(p) && (padding == 0 || padding > p.len() - start) {
                None
            } else {
                Some(
                    RtpPacket {
                        payload_type: (p[1] % 128) as u8,
                        timestamp: be32_at(p, 4),
                        ssrc: be32_at(p, 8),
                        payload: p.subrange(start, p.len() - padding),
                    },
                )
            }
        },
    }
}

pub fn parse_rtp(packet: &[u8]) -> (parsed: Result<ParsedRtp, ()>)
    ensures
        parsed is Ok <==> rtp_of(packet@) is Some,
        parsed matches Ok(rtp) ==> rtp@ == rtp_of(packet@)->Some_0,
{
    let start = match find_payload_start(packet) {
        Some(start) => start,
        None => return Err(()),
    };
    let mut end: usize = packet.len();
    if (packet[0] / 32) % 2 == 1 {
        let padding: usize = packet[packet.len() - 1] as usize;
        if padding == 0 || padding > packet.len() - start {
            return Err(());
        }
        end = end - padding;
    }
    Ok(
        ParsedRtp {
            payload_type: packet[1] % 128,
            timestamp: read_be32(packet, 4),
            ssrc: read_be32(packet, 8),
            payload: copy_range(packet, start, end),
        },
    )
}

/// The digit of event `event`.
pub open spec fn digit_of_event(event: u8) -> Option<DtmfDigit> {
    match event {
        0 => Some(DtmfDigit::D0),
        1 => Some(DtmfDigit::D1),
        2 => Some(DtmfDigit::D2),
        3 => Some(DtmfDigit::D3),
        4 => Some(DtmfDigit::D4),
        5 => Some(DtmfDigit::D5),
        6 => Some(DtmfDigit::D6),
        7 => Some(DtmfDigit::D7),
        8 => Some(DtmfDigit::D8),
        9 => Some(DtmfDigit::D9),
        10 => Some(DtmfDigit::Star),
        11 => Some(DtmfDigit::Pound),
        12 => Some(DtmfDigit::A),
        13 => Some(DtmfDigit::B),
        14 => Some(DtmfDigit::C),
        15 => Some(DtmfDigit::D),
        16 => Some(DtmfDigit::Flash),
        _ => None,
    }
}

/// The digit that an event stands for, where the event was announced.
pub open spec fn mapped_event(event: u8, capability: DtmfCapability) -> Option<DtmfDigit> {
    if capability.events.has(event) {
        digit_of_event(event)
    } else {
        None
    }
}

pub fn map_event(event: u8, capability: &DtmfCapability) -> (digit: Option<DtmfDigit>)
    ensures
        digit == mapped_event(event, *capability),
{
    if !capability.events.contains(event) {
        return None;
    }
    match event {
        0 => Some(DtmfDigit::D0),
        1 => Some(DtmfDigit::D1),
        2 => Some(DtmfDigit::D2),
        3 => Some(DtmfDigit::D3),
        4 => Some(DtmfDigit::D4),
        5 => Some(DtmfDigit::D5),
        6 => Some(DtmfDigit::D6),
        7 => Some(DtmfDigit::D7),
        8 => Some(DtmfDigit::D8),
        9 => Some(DtmfDigit::D9),
        10 => Some(DtmfDigit::Star),
        11 => Some(DtmfDigit::Pound),
        12 => Some(DtmfDigit::A),
        13 => Some(DtmfDigit::B),
        14 => Some(DtmfDigit::C),
        15 => Some(DtmfDigit::D),
        16 => Some(DtmfDigit::Flash),
        _ => None,
    }
}

/// What the parser knows.
#[verifier::ext_equal]
pub struct ParserState {
    pub config: ParserConfig,
    pub active: Seq<ActivePress>,
    pub recent: Seq<RecentEvent>,
}

impl ParserState {
    /// Never more than [`STATE_CAPACITY`] events are known, no press is known
    /// twice, no press that still lasts counts as finished, and no press lasts
    /// where none is listened for.
    pub open spec fn wf(self) -> bool {
        &&& self.config.active() is None ==> self.active.len() == 0
        &&& self.active.len() + self.recent.len() <= STATE_CAPACITY
        &&& forall|i: int, j: int|
            0 <= i < j < self.active.len() ==> (#[trigger] self.active[i]).key != (
            #[trigger] self.active[j]).key
        &&& forall|i: int, j: int|
            0 <= i < self.active.len() && 0 <= j < self.recent.len() ==> (
            #[trigger] self.active[i]).key != (#[trigger] self.recent[j]).key
    }
}

/// How long ago `then` was at `now`.
pub open spec fn elapsed(now: u64, then: u64) -> int {
    if now >= then {
        now - then
    } else {
        0
    }
}

/// The finished events without those at the front that are too old.
pub open spec fn pruned(recent: Seq<RecentEvent>, now: u64) -> Seq<RecentEvent>
    decreases recent.len(),
{
    if recent.len() > 0 && elapsed(now, recent[0].completed) >= RECENT_TTL {
        pruned(recent.skip(1), now)
    } else {
        recent
    }
}

/// When a press ends by itself: an idle time after it was last heard of, or the
/// longest duration after it began, whichever comes first.
pub open spec fn press_deadline(press: ActivePress) -> Option<u64> {
    if press.last_seen + IDLE_TIMEOUT > u64::MAX || press.first_seen + MAX_PRESS_DURATION
        > u64::MAX {
        None
    } else if press.last_seen + IDLE_TIMEOUT <= press.first_seen + MAX_PRESS_DURATION {
        Some((press.last_seen + IDLE_TIMEOUT) as u64)
    } else {
        Some((press.first_seen + MAX_PRESS_DURATION) as u64)
    }
}

pub open spec fn overdue(press: ActivePress, now: u64) -> bool {
    match press_deadline(press) {
        Some(at) => now >= at,
        None => false,
    }
}

pub open spec fn is_overdue(now: u64) -> spec_fn(ActivePress) -> bool {
    |press: ActivePress| overdue(press, now)
}

pub open spec fn is_lasting(now: u64) -> spec_fn(ActivePress) -> bool {
    |press: ActivePress| !overdue(press, now)
}

/// The duration in milliseconds of `units` ticks of the negotiated clock, at
/// most the longest press; zero where the clock does not tick.
pub open spec fn duration_ms(config: ParserConfig, units: u16) -> u32 {
    let rate: u32 = match config.active() {
        Some(capability) => capability.clock_rate,
        None => 8000,
    };
    if rate == 0 {
        0
    } else if (units * 1000) / (rate as int) <= MAX_PRESS_DURATION_MS {
        ((units * 1000) / (rate as int)) as u32
    } else {
        MAX_PRESS_DURATION_MS
    }
}

/// The report of a finished press.
pub open spec fn completion(
    config: ParserConfig,
    press: ActivePress,
    incomplete_end: bool,
) -> Rfc4733DigitCompleted {
    Rfc4733DigitCompleted {
        generation: config.generation,
        ssrc: press.key.ssrc,
        timestamp: press.key.timestamp,
        event_code: press.key.event,
        digit: press.digit,
        duration_ms: duration_ms(config, press.max_duration),
        incomplete_end,
    }
}

pub open spec fn reports_expired(config: ParserConfig) -> spec_fn(ActivePress) -> ParserObservation {
    |press: ActivePress| ParserObservation::Completed(completion(config, press, true))
}

pub open spec fn finished_at(now: u64) -> spec_fn(ActivePress) -> RecentEvent {
    |press: ActivePress| RecentEvent { key: press.key, completed: now }
}

/// What the parser knows at `now` once overdue presses have ended, and the
/// reports of those.
pub open spec fn expired(s: ParserState, now: u64) -> (ParserState, Seq<ParserObservation>) {
    let gone = s.active.filter(is_overdue(now));
    (
        ParserState {
            config: s.config,
            active: s.active.filter(is_lasting(now)),
            recent: pruned(s.recent, now) + gone.map_values(finished_at(now)),
        },
        gone.map_values(reports_expired(s.config)),
    )
}

pub open spec fn remembered(recent: Seq<RecentEvent>, key: EventKey) -> bool {
    exists|i: int| 0 <= i < recent.len() && (#[trigger] recent[i]).key == key
}

/// The position of the press of `key`.
pub open spec fn press_index(active: Seq<ActivePress>, key: EventKey) -> Option<int>
    decreases active.len(),
{
    if active.len() == 0 {
        None
    } else {
        match press_index(active.drop_last(), key) {
            Some(i) => Some(i),
            None => if active.last().key == key {
                Some(active.len() - 1)
            } else {
                None
            },
        }
    }
}

/// The finished events after the oldest have made room for one more press.
pub open spec fn with_room(active_len: nat, recent: Seq<RecentEvent>) -> Seq<RecentEvent> {
    let excess = active_len + recent.len() - (STATE_CAPACITY - 1);
    if excess <= 0 {
        recent
    } else if excess >= recent.len() {
        Seq::empty()
    } else {
        recent.skip(excess)
    }
}

/// What follows once the press in position `i` was noted: with the end bit it is
/// reported.
pub open spec fn noted(
    s: ParserState,
    seen: Seq<ParserObservation>,
    i: int,
    ended: bool,
    now: u64,
) -> (ParserState, Seq<ParserObservation>) {
    if ended {
        (
            ParserState {
                config: s.config,
                active: s.active.remove(i),
                recent: s.recent.push(RecentEvent { key: s.active[i].key, completed: now }),
            },
            seen.push(ParserObservation::Completed(completion(s.config, s.active[i], false))),
        )
    } else {
        (s, seen)
    }
}

/// What a report of event `key` with the given duration does.
pub open spec fn event_reported(
    s: ParserState,
    seen: Seq<ParserObservation>,
    key: EventKey,
    digit: DtmfDigit,
    duration: u16,
    ended: bool,
    now: u64,
) -> (ParserState, Seq<ParserObservation>) {
    if remembered(s.recent, key) {
        (s, seen)
    } else {
        match press_index(s.active, key) {
            Some(i) => if duration < s.active[i].max_duration {
                (s, seen.push(ParserObservation::Invalid))
            } else {
                let press = ActivePress { max_duration: duration, last_seen: now, ..s.active[i] };
                noted(
                    ParserState { active: s.active.update(i, press), ..s },
                    seen,
                    i,
                    ended,
                    now,
                )
            },
            None => {
                let recent = with_room(s.active.len(), s.recent);
                if s.active.len() + recent.len() >= STATE_CAPACITY {
                    (ParserState { recent, ..s }, seen.push(ParserObservation::Invalid))
                } else {
                    let press = ActivePress {
                        key,
                        digit,
                        max_duration: duration,
                        first_seen: now,
                        last_seen: now,
                    };
                    noted(
                        ParserState { config: s.config, active: s.active.push(press), recent },
                        seen,
                        s.active.len() as int,
                        ended,
                        now,
                    )
                }
            },
        }
    }
}

/// What the parser knows and reports after the packet `p` at `now`.
pub open spec fn observed(s: ParserState, p: Seq<u8>, now: u64) -> (
    ParserState,
    Seq<ParserObservation>,
) {
    let (t, seen) = expired(s, now);
    match t.config.active() {
        None => (t, seen),
        Some(capability) => match rtp_of(p) {
            None => (t, seen.push(ParserObservation::Invalid)),
            Some(rtp) => if rtp.payload_type != capability.payload_type {
                (t, seen)
            } else if rtp.payload.len() < 4 {
                (t, seen.push(ParserObservation::Invalid))
            } else {
                match mapped_event(rtp.payload[0], capability) {
                    None => (t, seen),
                    Some(digit) => event_reported(
                        t,
                        seen,
                        EventKey { ssrc: rtp.ssrc, timestamp: rtp.timestamp, event: rtp.payload[0] },
                        digit,
                        be16_at(rtp.payload, 2),
                        rtp.payload[1] >= 128,
                        now,
                    ),
                }
            },
        },
    }
}

proof fn lemma_filter_split(active: Seq<ActivePress>, now: u64)
    ensures
        active.filter(is_overdue(now)).len() + active.filter(is_lasting(now)).len() == active.len(),
    decreases active.len(),
{
    reveal(Seq::filter);
    if active.len() > 0 {
        lemma_filter_split(active.drop_last(), now);
    }
}

/// Where the elements of a filtered list come from, in order.
proof fn lemma_filter_origin(active: Seq<ActivePress>, keep: spec_fn(ActivePress) -> bool, i: int) -> (
from: int)
    requires
        0 <= i < active.filter(keep).len(),
    ensures
        0 <= from < active.len(),
        active[from] == active.filter(keep)[i],
        keep(active[from]),
        i < active.filter(keep).len() - 1 ==> exists|n: int|
            from < n < active.len() && active[n] == active.filter(keep)[i + 1],
    decreases active.len(),
{
    reveal(Seq::filter);
    let last = active.len() - 1;
    let front = active.drop_last();
    if i < front.filter(keep).len() {
        let from = lemma_filter_origin(front, keep, i);
        assert(front[from] == active[from]);
        if i + 1 < front.filter(keep).len() {
            let n = choose|n: int|
                from < n < front.len() && front[n] == front.filter(keep)[i + 1];
            assert(active[n] == front[n]);
        } else if i + 1 < active.filter(keep).len() {
            assert(active.filter(keep)[i + 1] == active[last]);
        }
        from
    } else {
        last
    }
}

/// Keys stay distinct in a filtered list.
proof fn lemma_filter_distinct(active: Seq<ActivePress>, keep: spec_fn(ActivePress) -> bool)
    requires
        forall|i: int, j: int|
            0 <= i < j < active.len() ==> (#[trigger] active[i]).key != (#[trigger] active[j]).key,
    ensures
        forall|i: int, j: int|
            0 <= i < j < active.filter(keep).len() ==> (#[trigger] active.filter(keep)[i]).key != (
            #[trigger] active.filter(keep)[j]).key,
    decreases active.len(),
{
    reveal(Seq::filter);
    if active.len() > 0 {
        let front = active.drop_last();
        assert forall|i: int, j: int| 0 <= i < j < front.len() implies (#[trigger] front[i]).key != (
        #[trigger] front[j]).key by {
            assert(front[i] == active[i] && front[j] == active[j]);
        }
        lemma_filter_distinct(front, keep);
        assert forall|i: int, j: int| 0 <= i < j < active.filter(keep).len() implies (
        #[trigger] active.filter(keep)[i]).key != (#[trigger] active.filter(keep)[j]).key by {
            if j == front.filter(keep).len() {
                let from = lemma_filter_origin(front, keep, i);
                assert(front[from] == active[from]);
            }
        }
    }
}

proof fn lemma_pruned_part(recent: Seq<RecentEvent>, now: u64) -> (from: int)
    ensures
        0 <= from <= recent.len(),
        pruned(recent, now) == recent.skip(from),
    decreases recent.len(),
{
    if recent.len() > 0 && elapsed(now, recent[0].completed) >= RECENT_TTL {
        let from = lemma_pruned_part(recent.skip(1), now);
        assert(recent.skip(1).skip(from) =~= recent.skip(from + 1));
        from + 1
    } else {
        assert(recent.skip(0) =~= recent);
        0
    }
}

/// Ending overdue presses keeps the parser's bounds.
pub proof fn lemma_expired_keeps_bounds(s: ParserState, now: u64)
    requires
        s.wf(),
    ensures
        expired(s, now).0.wf(),
{
    let t = expired(s, now).0;
    let gone = s.active.filter(is_overdue(now));
    lemma_filter_split(s.active, now);
    lemma_filter_distinct(s.active, is_lasting(now));
    let start = lemma_pruned_part(s.recent, now);
    assert forall|i: int, j: int| 0 <= i < t.active.len() && 0 <= j < t.recent.len() implies (
    #[trigger] t.active[i]).key != (#[trigger] t.recent[j]).key by {
        let from = lemma_filter_origin(s.active, is_lasting(now), i);
        let kept = pruned(s.recent, now).len();
        if j < kept {
            assert(t.recent[j] == s.recent[start + j]);
        } else {
            let other = lemma_filter_origin(s.active, is_overdue(now), j - kept);
            assert(t.recent[j].key == gone[j - kept].key);
            assert(from != other);
        }
    }
}

proof fn lemma_press_index(active: Seq<ActivePress>, key: EventKey)
    ensures
        match press_index(active, key) {
            Some(i) => 0 <= i < active.len() && active[i].key == key && forall|k: int|
                0 <= k < i ==> (#[trigger] active[k]).key != key,
            None => forall|k: int| 0 <= k < active.len() ==> (#[trigger] active[k]).key != key,
        },
    decreases active.len(),
{
    if active.len() > 0 {
        let front = active.drop_last();
        lemma_press_index(front, key);
        assert forall|k: int| 0 <= k < front.len() implies front[k] == active[k] by {}
        if press_index(front, key) is None {
            assert forall|k: int| 0 <= k < active.len() - 1 implies (#[trigger] active[k]).key
                != key by {
                assert(front[k] == active[k]);
            }
        } else {
            let i = press_index(front, key)->Some_0;
            assert forall|k: int| 0 <= k < i implies (#[trigger] active[k]).key != key by {
                assert(front[k] == active[k]);
            }
        }
    }
}

/// Whatever packet comes, the parser's bounds hold afterwards.
pub proof fn lemma_observed_keeps_bounds(s: ParserState, p: Seq<u8>, now: u64)
    requires
        s.wf(),
    ensures
        observed(s, p, now).0.wf(),
{
    lemma_expired_keeps_bounds(s, now);
    let t = expired(s, now).0;
    if t.config.active() is Some && rtp_of(p) is Some && rtp_of(p)->Some_0.payload.len() >= 4 {
        let rtp = rtp_of(p)->Some_0;
        let key = EventKey { ssrc: rtp.ssrc, timestamp: rtp.timestamp, event: rtp.payload[0] };
        lemma_press_index(t.active, key);
        let u = observed(s, p, now).0;
        assert forall|i: int, j: int| 0 <= i < j < u.active.len() implies (
        #[trigger] u.active[i]).key != (#[trigger] u.active[j]).key by {
            if press_index(t.active, key) is Some && u.active.len() < t.active.len() {
                let at = press_index(t.active, key)->Some_0;
                let oi = if i < at { i } else { i + 1 };
                let oj = if j < at { j } else { j + 1 };
                assert(t.active[oi].key != t.active[oj].key);
            } else if j < t.active.len() {
                assert(t.active[i].key != t.active[j].key);
            } else {
                assert(t.active[i].key != key);
            }
        }
        assert forall|i: int, j: int| 0 <= i < u.active.len() && 0 <= j < u.recent.len() implies (
        #[trigger] u.active[i]).key != (#[trigger] u.recent[j]).key by {
            let kept = with_room(t.active.len(), t.recent);
            let drop = t.recent.len() - kept.len();
            if u.active == t.active && u.recent == t.recent {
                assert(t.active[i].key != t.recent[j].key);
            } else if press_index(t.active, key) is Some {
                let at = press_index(t.active, key)->Some_0;
                if u.active.len() < t.active.len() {
                    let oi = if i < at { i } else { i + 1 };
                    if j < t.recent.len() {
                        assert(t.active[oi].key != t.recent[j].key);
                    } else {
                        if oi < at {
                            assert(t.active[oi].key != t.active[at].key);
                        } else {
                            assert(t.active[at].key != t.active[oi].key);
                        }
                    }
                } else {
                    assert(t.active[i].key != t.recent[j].key);
                }
            } else {
                if j < kept.len() {
                    assert(kept[j] == t.recent[drop + j]);
                    if i < t.active.len() {
                        assert(t.active[i].key != t.recent[drop + j].key);
                    }
                } else {
                    assert(t.active[i].key != key);
                }
            }
        }
    }
}

/// While a finished event is remembered, further packets of it report nothing
/// and change nothing: only presses that were overdue anyway come out, and none
/// of them is that event.
pub proof fn lemma_finished_event_is_reported_once(s: ParserState, p: Seq<u8>, now: u64)
    requires
        s.wf(),
        rtp_of(p) is Some,
        rtp_of(p)->Some_0.payload.len() >= 4,
        remembered(
            pruned(s.recent, now),
            EventKey {
                ssrc: rtp_of(p)->Some_0.ssrc,
                timestamp: rtp_of(p)->Some_0.timestamp,
                event: rtp_of(p)->Some_0.payload[0],
            },
        ),
    ensures
        observed(s, p, now) == expired(s, now),
        forall|i: int|
            0 <= i < observed(s, p, now).1.len() ==> match #[trigger] observed(s, p, now).1[i] {
                ParserObservation::Completed(done) => !(done.ssrc == rtp_of(p)->Some_0.ssrc
                    && done.timestamp == rtp_of(p)->Some_0.timestamp && done.event_code
                    == rtp_of(p)->Some_0.payload[0]),
                ParserObservation::Invalid => false,
            },
{
    let rtp = rtp_of(p)->Some_0;
    let key = EventKey { ssrc: rtp.ssrc, timestamp: rtp.timestamp, event: rtp.payload[0] };
    let kept = pruned(s.recent, now);
    let t = expired(s, now).0;
    let i = choose|i: int| 0 <= i < kept.len() && (#[trigger] kept[i]).key == key;
    assert(t.recent[i] == kept[i]);
    assert(remembered(t.recent, key));
    let start = lemma_pruned_part(s.recent, now);
    assert(kept[i] == s.recent[start + i]);
    let gone = s.active.filter(is_overdue(now));
    assert forall|n: int| 0 <= n < gone.len() implies (#[trigger] gone[n]).key != key by {
        let from = lemma_filter_origin(s.active, is_overdue(now), n);
        assert(s.active[from].key != s.recent[start + i].key);
    }
}

/// Recognises telephone events in the packets of one stream.
pub struct Rfc4733Parser {
    pub config: ParserConfig,
    pub active: Vec<ActivePress>,
    pub recent: Vec<RecentEvent>,
}

impl Rfc4733Parser {
    pub open spec fn view(&self) -> ParserState {
        ParserState { config: self.config, active: self.active@, recent: self.recent@ }
    }

    pub fn new(config: ParserConfig) -> (parser: Self)
        ensures
            parser@ == (ParserState { config, active: Seq::empty(), recent: Seq::empty() }),
            parser@.wf(),
    {
        Rfc4733Parser { config, active: Vec::new(), recent: Vec::new() }
    }

    /// Another configuration forgets every event.
    pub fn update_config(&mut self, config: ParserConfig)
        ensures
            final(self)@ == (if config == old(self).config {
                old(self)@
            } else {
                ParserState { config, active: Seq::empty(), recent: Seq::empty() }
            }),
            old(self)@.wf() ==> final(self)@.wf(),
    {
        if !self.config.same(&config) {
            self.config = config;
            self.active.clear();
            self.recent.clear();
        }
    }

    fn prune_recent(&mut self, now: u64)
        ensures
            final(self)@ == (ParserState { recent: pruned(old(self).recent@, now), ..old(self)@ }),
    {
        let mut stale: usize = 0;
        assert(self.recent@.skip(0) =~= self.recent@);
        while stale < self.recent.len()
            invariant_except_break
                *self == *old(self),
                stale <= self.recent.len(),
                pruned(self.recent@, now) == pruned(self.recent@.skip(stale as int), now),
            ensures
                *self == *old(self),
                stale <= self.recent.len(),
                pruned(self.recent@, now) == self.recent@.skip(stale as int),
            decreases self.recent.len() - stale,
        {
            if now.saturating_sub(self.recent[stale].completed) < RECENT_TTL {
                break;
            }
            assert(self.recent@.skip(stale as int).skip(1) =~= self.recent@.skip(stale + 1));
            stale = stale + 1;
        }
        self.recent = drop_front(&self.recent, stale);
    }

    /// Ends the presses that are overdue at `now`.
    pub fn expire(&mut self, now: u64) -> (reports: Vec<ParserObservation>)
        ensures
            (final(self)@, reports@) == expired(old(self)@, now),
            old(self)@.wf() ==> final(self)@.wf(),
    {
        proof {
            if old(self)@.wf() {
                lemma_expired_keeps_bounds(old(self)@, now);
            }
        }
        self.prune_recent(now);
        let ghost recent = self.recent@;
        let ghost active = self.active@;
        let ghost config = self.config;
        let mut reports: Vec<ParserObservation> = Vec::new();
        let mut lasting: Vec<ActivePress> = Vec::new();
        let mut i: usize = 0;
        proof {
            reveal(Seq::filter);
            assert(active.take(0).filter(is_overdue(now)) =~= Seq::empty());
            assert(active.take(0).filter(is_lasting(now)) =~= Seq::empty());
        }
        while i < self.active.len()
            invariant
                i <= self.active.len(),
                self.active@ == active,
                self.config == config,
                lasting@ =~= active.take(i as int).filter(is_lasting(now)),
                reports@ =~= active.take(i as int).filter(is_overdue(now)).map_values(
                    reports_expired(config),
                ),
                self.recent@ =~= recent + active.take(i as int).filter(is_overdue(now)).map_values(
                    finished_at(now),
                ),
            decreases self.active.len() - i,
        {
            let press = self.active[i];
            proof {
                reveal(Seq::filter);
                assert(active.take(i + 1).drop_last() =~= active.take(i as int));
                assert(active.take(i + 1).last() == press);
            }
            let over = is_press_overdue(&press, now);
            if over {
                let report = self.report(&press, true);
                reports.push(ParserObservation::Completed(report));
                self.recent.push(RecentEvent { key: press.key, completed: now });
            } else {
                lasting.push(press);
            }
            i = i + 1;
        }
        assert(active.take(i as int) =~= active);
        self.active = lasting;
        reports
    }

    /// Takes in one packet.
    pub fn observe_packet(&mut self, packet: &[u8], now: u64) -> (reports: Vec<ParserObservation>)
        ensures
            (final(self)@, reports@) == observed(old(self)@, packet@, now),
            old(self)@.wf() ==> final(self)@.wf(),
    {
        proof {
            if old(self)@.wf() {
                lemma_observed_keeps_bounds(old(self)@, packet@, now);
            }
        }
        let mut reports = self.expire(now);
        let capability = match self.config.active_capability() {
            Some(capability) => capability,
            None => return reports,
        };
        let rtp = match parse_rtp(packet) {
            Ok(rtp) => rtp,
            Err(_) => {
                reports.push(ParserObservation::Invalid);
                return reports;
            },
        };
        if rtp.payload_type != capability.payload_type {
            return reports;
        }
        if rtp.payload.len() < 4 {
            reports.push(ParserObservation::Invalid);
            return reports;
        }
        let event: u8 = rtp.payload[0];
        let digit = match map_event(event, &capability) {
            Some(digit) => digit,
            None => return reports,
        };
        let key = EventKey { ssrc: rtp.ssrc, timestamp: rtp.timestamp, event };
        let duration = read_be16(rtp.payload.as_slice(), 2);
        let ended = rtp.payload[1] >= 128;
        self.take_event(&mut reports, key, digit, duration, ended, now);
        reports
    }

    fn take_event(
        &mut self,
        reports: &mut Vec<ParserObservation>,
        key: EventKey,
        digit: DtmfDigit,
        duration: u16,
        ended: bool,
        now: u64,
    )
        ensures
            (final(self)@, final(reports)@) == event_reported(
                old(self)@,
                old(reports)@,
                key,
                digit,
                duration,
                ended,
                now,
            ),
    {
        if self.is_remembered(key) {
            return;
        }
        let at: usize;
        match self.find_press(key) {
            Some(i) => {
                let mut press = self.active[i];
                if duration < press.max_duration {
                    reports.push(ParserObservation::Invalid);
                    return;
                }
                press.max_duration = duration;
                press.last_seen = now;
                self.active.set(i, press);
                at = i;
            },
            None => {
                let total: u128 = self.active.len() as u128 + self.recent.len() as u128;
                if total >= STATE_CAPACITY as u128 {
                    let excess: u128 = total - (STATE_CAPACITY - 1) as u128;
                    if excess >= self.recent.len() as u128 {
                        self.recent.clear();
                    } else {
                        self.recent = drop_front(&self.recent, excess as usize);
                    }
                }
                if self.active.len() as u128 + self.recent.len() as u128 >= STATE_CAPACITY as u128 {
                    reports.push(ParserObservation::Invalid);
                    return;
                }
                at = self.active.len();
                self.active.push(
                    ActivePress {
                        key,
                        digit,
                        max_duration: duration,
                        first_seen: now,
                        last_seen: now,
                    },
                );
            },
        }
        if ended {
            let press = self.active[at];
            let report = self.report(&press, false);
            reports.push(ParserObservation::Completed(report));
            self.active.remove(at);
            self.recent.push(RecentEvent { key: press.key, completed: now });
        }
    }

    fn report(&self, press: &ActivePress, incomplete_end: bool) -> (done: Rfc4733DigitCompleted)
        ensures
            done == completion(self.config, *press, incomplete_end),
    {
        let clock_rate: u32 = match self.config.active_capability() {
            Some(capability) => capability.clock_rate,
            None => 8000,
        };
        let mut duration: u32 = 0;
        if clock_rate != 0 {
            duration = (press.max_duration as u32 * 1000) / clock_rate;
            if duration > MAX_PRESS_DURATION_MS {
                duration = MAX_PRESS_DURATION_MS;
            }
        }
        Rfc4733DigitCompleted {
            generation: self.config.generation,
            ssrc: press.key.ssrc,
            timestamp: press.key.timestamp,
            event_code: press.key.event,
            digit: press.digit,
            duration_ms: duration,
            incomplete_end,
        }
    }

    fn is_remembered(&self, key: EventKey) -> (found: bool)
        ensures
            found == remembered(self.recent@, key),
    {
        let mut i: usize = 0;
        while i < self.recent.len()
            invariant
                i <= self.recent.len(),
                forall|k: int| 0 <= k < i ==> (#[trigger] self.recent@[k]).key != key,
            decreases self.recent.len() - i,
        {
            if self.recent[i].key == key {
                return true;
            }
            i = i + 1;
        }
        false
    }

    fn find_press(&self, key: EventKey) -> (found: Option<usize>)
        ensures
            match found {
                Some(i) => press_index(self.active@, key) == Some(i as int) && i < self.active@.len()
                    && self.active@[i as int].key == key,
                None => press_index(self.active@, key) is None,
            },
    {
        proof {
            lemma_press_index(self.active@, key);
        }
        let mut i: usize = 0;
        while i < self.active.len()
            invariant
                i <= self.active.len(),
                forall|k: int| 0 <= k < i ==> (#[trigger] self.active@[k]).key != key,
                match press_index(self.active@, key) {
                    Some(n) => 0 <= n < self.active@.len() && self.active@[n].key == key
                        && forall|k: int| 0 <= k < n ==> (#[trigger] self.active@[k]).key != key,
                    None => forall|k: int|
                        0 <= k < self.active@.len() ==> (#[trigger] self.active@[k]).key != key,
                },
            decreases self.active.len() - i,
        {
            if self.active[i].key == key {
                return Some(i);
            }
            i = i + 1;
        }
        None
    }

    /// When the first press ends by itself.
    pub fn next_deadline(&self) -> (deadline: Option<u64>)
        ensures
            match deadline {
                Some(at) => (exists|i: int|
                    0 <= i < self.active@.len() && press_deadline(#[trigger] self.active@[i]) == Some(
                        at,
                    )) && forall|i: int|
                    0 <= i < self.active@.len() ==> match press_deadline(
                        #[trigger] self.active@[i],
                    ) {
                        Some(other) => at <= other,
                        None => true,
                    },
                None => forall|i: int|
                    0 <= i < self.active@.len() ==> press_deadline(#[trigger] self.active@[i]) is None,
            },
    {
        let mut earliest: Option<u64> = None;
        let mut i: usize = 0;
        while i < self.active.len()
            invariant
                i <= self.active.len(),
                match earliest {
                    Some(at) => (exists|k: int|
                        0 <= k < i && press_deadline(#[trigger] self.active@[k]) == Some(at))
                        && forall|k: int|
                        0 <= k < i ==> match press_deadline(#[trigger] self.active@[k]) {
                            Some(other) => at <= other,
                            None => true,
                        },
                    None => forall|k: int|
                        0 <= k < i ==> press_deadline(#[trigger] self.active@[k]) is None,
                },
            decreases self.active.len() - i,
        {
            let press = self.active[i];
            match deadline_of(&press) {
                Some(at) => {
                    let sooner = match earliest {
                        Some(known) => at < known,
                        None => true,
                    };
                    if sooner {
                        earliest = Some(at);
                        assert(press_deadline(self.active@[i as int]) == Some(at));
                    }
                },
                None => {},
            }
            i = i + 1;
        }
        earliest
    }

    /// Whether the packet is a telephone event that must not be passed on.
    pub fn suppresses_packet(&self, packet: &[u8]) -> (suppressed: bool)
        ensures
            suppressed == (self.config.mode == DtmfMediaMode::Collect && match self.config.capability {
                Some(capability) => packet@.len() >= 2 && packet@[0] / 64 == 2 && packet@[1] % 128
                    == capability.payload_type,
                None => false,
            }),
    {
        match self.config.capability {
            Some(capability) => self.config.mode == DtmfMediaMode::Collect && packet.len() >= 2
                && packet[0] / 64 == 2 && packet[1] % 128 == capability.payload_type,
            None => false,
        }
    }
}

fn deadline_of(press: &ActivePress) -> (deadline: Option<u64>)
    ensures
        deadline == press_deadline(*press),
{
    match (
        press.last_seen.checked_add(IDLE_TIMEOUT),
        press.first_seen.checked_add(MAX_PRESS_DURATION),
    ) {
        (Some(idle), Some(maximum)) => if idle <= maximum {
            Some(idle)
        } else {
            Some(maximum)
        },
        _ => None,
    }
}

fn is_press_overdue(press: &ActivePress, now: u64) -> (over: bool)
    ensures
        over == overdue(*press, now),
{
    match deadline_of(press) {
        Some(at) => now >= at,
        None => false,
    }
}

/// The events behind the first `count`.
fn drop_front(events: &Vec<RecentEvent>, count: usize) -> (rest: Vec<RecentEvent>)
    requires
        count <= events.len(),
    ensures
        rest@ == events@.skip(count as int),
{
    let mut rest: Vec<RecentEvent> = Vec::new();
    let mut i: usize = count;
    while i < events.len()
        invariant
            count <= i <= events.len(),
            rest@ == events@.subrange(count as int, i as int),
        decreases events.len() - i,
    {
        rest.push(events[i]);
        i = i + 1;
        assert(events@.subrange(count as int, i as int) =~= events@.subrange(
            count as int,
            i - 1,
        ).push(events@[i - 1]));
    }
    assert(rest@ =~= events@.skip(count as int));
    rest
}

} // verus!
