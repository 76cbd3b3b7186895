//! What holds of telephone events: how a packet is read, which digit an event
//! stands for, when a press is over, and how it is reported; and of the leases by
//! which others get to see them.

use crate::bytes::{be16_at, be32_at, le16, le32, le32_at};
use crate::capability::{
    acquisition, desired, direction_of, holds, leased, one_collector, set_to, AcquirePlan,
    CapabilityError, Lease, LeaseRequest,
};
use crate::dtmf::{
    completion, digit_of_event, duration_ms, event_reported, expired, finished_at, is_lasting,
    is_overdue, mapped_event, observed, overdue, press_index, pruned, remembered, reports_expired,
    rtp_of, with_room, ActivePress, DtmfCapability, DtmfDigit, DtmfEventSet, DtmfMediaMode,
    EventKey, ParserConfig, ParserObservation, ParserState, RecentEvent,
};
use crate::media::{speech_packet, DtmfRelayDirection, DtmfSessionBindings};
use crate::rtp::payload_start;
use vstd::prelude::*;

verus! {

// ---------------------------------------------------------------------------
// Bytes and packets.

/// Numbers are written with the least significant byte first, and read with the
/// most significant first where the network does so.
pub proof fn lemma_order_of_bytes(small: u16, large: u32, b: Seq<u8>, at: int)
    requires
        0 <= at,
        at + 4 <= b.len(),
    ensures
        le16(small).len() == 2,
        le16(small)[0] + 256 * le16(small)[1] == small,
        le32(large).len() == 4,
        le32(large)[0] + 256 * le32(large)[1] + 65536 * le32(large)[2] + 16777216 * le32(large)[3]
            == large,
        be16_at(b, at) == 256 * b[at] + b[at + 1],
        be32_at(b, at) == 16777216 * b[at] + 65536 * b[at + 1] + 256 * b[at + 2] + b[at + 3],
        le32_at(b, at) == b[at] + 256 * b[at + 1] + 65536 * b[at + 2] + 16777216 * b[at + 3],
{
}

/// The payload follows the fixed header, the contributing sources that it counts and
/// the extension that it announces, four bytes to each word.
pub proof fn lemma_payload_follows_the_header(p: Seq<u8>, sources: u8)
    requires
        sources < 16,
        p.len() >= 12,
    ensures
        p[0] == 128 + sources && p.len() >= 12 + 4 * sources ==> payload_start(p) == Some(
            12 + 4 * sources,
        ),
        p[0] == 128 + sources && p.len() < 12 + 4 * sources ==> payload_start(p) is None,
        p[0] == 144 + sources && p.len() >= 16 + 4 * sources ==> {
            let words = 256 * p[14 + 4 * sources] + p[15 + 4 * sources];
            &&& p.len() >= 16 + 4 * sources + 4 * words ==> payload_start(p) == Some(
                16 + 4 * sources + 4 * words,
            )
            &&& p.len() < 16 + 4 * sources + 4 * words ==> payload_start(p) is None
        },
        p[0] < 128 || p[0] >= 192 ==> payload_start(p) is None,
{
}

/// A packet with padding gives its payload without that; padding of no bytes, or of
/// more than there are, makes it malformed.
pub proof fn lemma_padding_is_left_out(p: Seq<u8>)
    requires
        p.len() >= 12,
        p[0] == 160,
    ensures
        p.last() == 0 || p.last() > p.len() - 12 ==> rtp_of(p) is None,
        0 < p.last() <= p.len() - 12 ==> (rtp_of(p) matches Some(rtp) && rtp.payload == p.subrange(
            12,
            p.len() - p.last(),
        ) && rtp.payload_type == p[1] % 128),
{
}

/// A plain packet gives back what it was made of.
pub proof fn lemma_plain_packet_reads_back(
    payload: Seq<u8>,
    payload_type: u8,
    timestamp: u32,
    sequence: u16,
    ssrc: u32,
)
    ensures
        ({
            let packet = speech_packet(payload, payload_type, timestamp, sequence, ssrc);
            &&& rtp_of(packet) matches Some(rtp) && rtp.payload == payload && rtp.payload_type
                == payload_type % 128 && rtp.timestamp == timestamp && rtp.ssrc == ssrc
        }),
{
    let packet = speech_packet(payload, payload_type, timestamp, sequence, ssrc);
    crate::media::lemma_speech_packet_reads_back(payload, payload_type, timestamp, sequence, ssrc);
    assert(packet[0] == 0x80);
    assert(packet.subrange(12, packet.len() as int) =~= payload);
}

// ---------------------------------------------------------------------------
// Digits.

/// The digit of each event: the ten digits, star, pound, four letters and the flash.
pub proof fn lemma_digits_of_events(event: u8)
    ensures
        digit_of_event(0) == Some(DtmfDigit::D0),
        digit_of_event(1) == Some(DtmfDigit::D1),
        digit_of_event(2) == Some(DtmfDigit::D2),
        digit_of_event(3) == Some(DtmfDigit::D3),
        digit_of_event(4) == Some(DtmfDigit::D4),
        digit_of_event(5) == Some(DtmfDigit::D5),
        digit_of_event(6) == Some(DtmfDigit::D6),
        digit_of_event(7) == Some(DtmfDigit::D7),
        digit_of_event(8) == Some(DtmfDigit::D8),
        digit_of_event(9) == Some(DtmfDigit::D9),
        digit_of_event(10) == Some(DtmfDigit::Star),
        digit_of_event(11) == Some(DtmfDigit::Pound),
        digit_of_event(12) == Some(DtmfDigit::A),
        digit_of_event(13) == Some(DtmfDigit::B),
        digit_of_event(14) == Some(DtmfDigit::C),
        digit_of_event(15) == Some(DtmfDigit::D),
        digit_of_event(16) == Some(DtmfDigit::Flash),
        event > 16 ==> digit_of_event(event) is None,
{
}

/// No two events stand for the same digit.
pub proof fn lemma_digits_tell_events_apart(a: u8, b: u8)
    requires
        digit_of_event(a) is Some,
        digit_of_event(a) == digit_of_event(b),
    ensures
        a == b,
{
}

/// An event that was not announced stands for no digit.
pub proof fn lemma_only_announced_events_count(event: u8, capability: DtmfCapability)
    ensures
        capability.events.has(event) ==> mapped_event(event, capability) == digit_of_event(event),
        !capability.events.has(event) ==> mapped_event(event, capability) is None,
        capability.events.has(event) ==> event <= 16,
{
}

/// How long a press lasted: so many ticks of the negotiated clock, at most ten
/// seconds.
pub proof fn lemma_duration_counts_ticks(config: ParserConfig, units: u16)
    ensures
        duration_ms(config, units) <= 10_000,
        config.active() matches Some(capability) ==> (capability.clock_rate == 8000 ==> duration_ms(
            config,
            units,
        ) == units / 8),
        config.active() matches Some(capability) ==> (capability.clock_rate == 16000
            ==> duration_ms(config, units) == units / 16),
        config.active() matches Some(capability) ==> (capability.clock_rate == 1000
            && units <= 10_000 ==> duration_ms(config, units) == units),
        config.active() is None ==> duration_ms(config, units) == units / 8,
        config.active() matches Some(capability) ==> (capability.clock_rate == 0 ==> duration_ms(
            config,
            units,
        ) == 0),
{
}

/// The duration is right for every clock: that many milliseconds of it have passed,
/// and not one more.
pub proof fn lemma_duration_is_exact(config: ParserConfig, units: u16)
    requires
        config.active() is Some,
        config.active()->Some_0.clock_rate > 0,
    ensures
        ({
            let rate = config.active()->Some_0.clock_rate as int;
            let ms = duration_ms(config, units) as int;
            ms < 10_000 ==> ms * rate <= units * 1000 < (ms + 1) * rate
        }),
{
    let rate = config.active()->Some_0.clock_rate as int;
    let n = units * 1000;
    let q = n / rate;
    assert(q * rate <= n < (q + 1) * rate) by (nonlinear_arith)
        requires
            rate > 0,
            n >= 0,
            q == n / rate,
    ;
}

/// A parser that is transparent examines nothing; one that observes or collects does
/// so by what was negotiated.
pub proof fn lemma_transparent_parser_examines_nothing(config: ParserConfig)
    ensures
        config.mode == DtmfMediaMode::Transparent ==> config.active() is None,
        config.mode != DtmfMediaMode::Transparent ==> config.active() == config.capability,
{
}

// ---------------------------------------------------------------------------
// Presses.

/// A press is over a quarter of a second after it was last heard of, or ten seconds
/// after it began, and not before.
pub proof fn lemma_when_a_press_is_over(press: ActivePress, now: u64)
    requires
        press.last_seen <= u64::MAX - 10_000_000_000,
        press.first_seen <= u64::MAX - 10_000_000_000,
    ensures
        overdue(press, now) <==> now >= press.last_seen + 250_000_000 || now >= press.first_seen
            + 10_000_000_000,
{
}

/// A press that is over without its end is reported as such and remembered; one that
/// lasts stays.
pub proof fn lemma_overdue_press_is_reported(s: ParserState, now: u64, i: int)
    requires
        0 <= i < s.active.len(),
    ensures
        ({
            let (t, reports) = expired(s, now);
            let press = s.active[i];
            &&& t.config == s.config
            &&& overdue(press, now) ==> reports.contains(
                ParserObservation::Completed(completion(s.config, press, true)),
            ) && t.recent.contains(RecentEvent { key: press.key, completed: now })
            &&& !overdue(press, now) ==> t.active.contains(press)
            &&& forall|k: int| 0 <= k < t.active.len() ==> !overdue(#[trigger] t.active[k], now)
            &&& forall|k: int|
                0 <= k < reports.len() ==> ((#[trigger] reports[k]) matches
                    ParserObservation::Completed(done) && done.incomplete_end && done.generation
                    == s.config.generation)
        }),
{
    broadcast use vstd::seq_lib::group_filter_ensures;

    let (t, reports) = expired(s, now);
    let press = s.active[i];
    let gone = s.active.filter(is_overdue(now));
    let kept = pruned(s.recent, now);
    if overdue(press, now) {
        assert(is_overdue(now)(press));
        assert(gone.contains(press));
        let k = choose|k: int| 0 <= k < gone.len() && gone[k] == press;
        assert(reports[k] == ParserObservation::Completed(completion(s.config, press, true)));
        assert(t.recent[kept.len() + k] == RecentEvent { key: press.key, completed: now });
    } else {
        assert(is_lasting(now)(press));
    }
    assert forall|k: int| 0 <= k < t.active.len() implies !overdue(#[trigger] t.active[k], now) by {
        assert(is_lasting(now)(s.active.filter(is_lasting(now))[k]));
    }
    assert forall|k: int| 0 <= k < reports.len() implies ((#[trigger] reports[k]) matches
        ParserObservation::Completed(done) && done.incomplete_end && done.generation
        == s.config.generation) by {
        assert(reports[k] == reports_expired(s.config)(gone[k]));
    }
}

/// A report says which digit it was, of which stream and when it began, in the
/// parser's generation.
pub proof fn lemma_report_names_the_press(config: ParserConfig, press: ActivePress, incomplete: bool)
    ensures
        completion(config, press, incomplete).digit == press.digit,
        completion(config, press, incomplete).generation == config.generation,
        completion(config, press, incomplete).ssrc == press.key.ssrc,
        completion(config, press, incomplete).timestamp == press.key.timestamp,
        completion(config, press, incomplete).event_code == press.key.event,
        completion(config, press, incomplete).incomplete_end == incomplete,
        completion(config, press, incomplete).duration_ms == duration_ms(
            config,
            press.max_duration,
        ),
{
}

/// A finished event is remembered for two seconds at least, and of those too old none
/// stands in front.
pub proof fn lemma_finished_events_are_remembered(recent: Seq<RecentEvent>, now: u64, i: int)
    requires
        0 <= i < recent.len(),
        now < recent[i].completed + 2_000_000_000,
    ensures
        pruned(recent, now).contains(recent[i]),
        pruned(recent, now).len() <= recent.len(),
        now < pruned(recent, now)[0].completed + 2_000_000_000,
    decreases recent.len(),
{
    if pruned(recent, now) != recent {
        assert(recent.skip(1)[i - 1] == recent[i]);
        lemma_finished_events_are_remembered(recent.skip(1), now, i - 1);
    } else {
        assert(recent[i] == pruned(recent, now)[i]);
        if now >= recent[0].completed + 2_000_000_000 {
            assert(pruned(recent.skip(1), now).len() <= recent.len() - 1) by {
                lemma_forgetting_shortens(recent.skip(1), now);
            }
        }
    }
}

/// Forgetting adds nothing.
pub proof fn lemma_forgetting_shortens(recent: Seq<RecentEvent>, now: u64)
    ensures
        pruned(recent, now).len() <= recent.len(),
    decreases recent.len(),
{
    if recent.len() > 0 {
        lemma_forgetting_shortens(recent.skip(1), now);
    }
}

/// The first that is heard of an event begins a press: with its end bit it is
/// reported at once, with the duration that it gives; without it, nothing is
/// reported yet.
pub proof fn lemma_new_event_begins_a_press(
    s: ParserState,
    seen: Seq<ParserObservation>,
    key: EventKey,
    digit: DtmfDigit,
    duration: u16,
    ended: bool,
    now: u64,
)
    requires
        !remembered(s.recent, key),
        press_index(s.active, key) is None,
        s.active.len() + s.recent.len() < 32,
    ensures
        ({
            let (t, reports) = event_reported(s, seen, key, digit, duration, ended, now);
            &&& t.config == s.config
            &&& ended ==> {
                &&& reports.len() == seen.len() + 1
                &&& seen.is_prefix_of(reports)
                &&& reports.last() matches ParserObservation::Completed(done) && done.digit == digit
                    && done.ssrc == key.ssrc && done.timestamp == key.timestamp && done.event_code
                    == key.event && done.duration_ms == duration_ms(s.config, duration)
                    && !done.incomplete_end && done.generation == s.config.generation
                &&& t.active =~= s.active
                &&& t.recent == s.recent.push(RecentEvent { key, completed: now })
            }
            &&& !ended ==> {
                &&& reports == seen
                &&& t.active == s.active.push(
                    ActivePress {
                        key,
                        digit,
                        max_duration: duration,
                        first_seen: now,
                        last_seen: now,
                    },
                )
                &&& t.recent == s.recent
            }
        }),
{
}

/// What is heard of a press that lasts makes it longer, and never shorter: a shorter
/// duration is invalid. With the end bit it is reported, with its longest duration.
pub proof fn lemma_press_grows(
    s: ParserState,
    seen: Seq<ParserObservation>,
    i: int,
    digit: DtmfDigit,
    duration: u16,
    ended: bool,
    now: u64,
)
    requires
        0 <= i < s.active.len(),
        press_index(s.active, s.active[i].key) == Some(i),
        !remembered(s.recent, s.active[i].key),
    ensures
        ({
            let press = s.active[i];
            let (t, reports) = event_reported(s, seen, press.key, digit, duration, ended, now);
            &&& duration < press.max_duration ==> t == s && reports == seen.push(
                ParserObservation::Invalid,
            )
            &&& duration >= press.max_duration && !ended ==> {
                &&& reports == seen
                &&& t.recent == s.recent
                &&& t.active.len() == s.active.len()
                &&& t.active[i].max_duration == duration
                &&& t.active[i].last_seen == now
                &&& t.active[i].first_seen == press.first_seen
                &&& t.active[i].digit == press.digit
                &&& t.active[i].key == press.key
            }
            &&& duration >= press.max_duration && ended ==> {
                &&& t.active == s.active.remove(i)
                &&& t.recent == s.recent.push(RecentEvent { key: press.key, completed: now })
                &&& reports.len() == seen.len() + 1
                &&& reports.last() matches ParserObservation::Completed(done) && done.digit
                    == press.digit && done.duration_ms == duration_ms(s.config, duration)
                    && !done.incomplete_end && done.ssrc == press.key.ssrc && done.timestamp
                    == press.key.timestamp
            }
        }),
{
    if duration >= s.active[i].max_duration {
        assert(s.active.update(
            i,
            ActivePress { max_duration: duration, last_seen: now, ..s.active[i] },
        ).remove(i) =~= s.active.remove(i));
    }
}

/// A whole press in one packet: a parser that knows nothing yet reports the digit of
/// an announced event once its end is heard, and not before, with the numbers of the
/// packet. A packet of another payload type is none of its business.
pub proof fn lemma_pressed_digit_is_reported(
    config: ParserConfig,
    capability: DtmfCapability,
    event: u8,
    flags: u8,
    duration: u16,
    payload_type: u8,
    timestamp: u32,
    sequence: u16,
    ssrc: u32,
    now: u64,
)
    requires
        config.mode != DtmfMediaMode::Transparent,
        config.capability == Some(capability),
        capability.events.has(event),
        capability.payload_type < 128,
    ensures
        ({
            let s = ParserState { config, active: Seq::empty(), recent: Seq::empty() };
            let payload = seq![event, flags, (duration / 256) as u8, (duration % 256) as u8];
            let packet = speech_packet(payload, payload_type, timestamp, sequence, ssrc);
            let (t, reports) = observed(s, packet, now);
            &&& payload_type % 128 != capability.payload_type ==> reports.len() == 0
                && t.active.len() == 0
            &&& payload_type % 128 == capability.payload_type && flags >= 128 ==> {
                &&& reports.len() == 1
                &&& reports[0] matches ParserObservation::Completed(done) && Some(done.digit)
                    == digit_of_event(event) && done.ssrc == ssrc && done.timestamp == timestamp
                    && done.event_code == event && done.duration_ms == duration_ms(config, duration)
                    && !done.incomplete_end && done.generation == config.generation
                &&& t.active.len() == 0
            }
            &&& payload_type % 128 == capability.payload_type && flags < 128 ==> {
                &&& reports.len() == 0
                &&& t.active.len() == 1
                &&& t.active[0].max_duration == duration
                &&& Some(t.active[0].digit) == digit_of_event(event)
            }
        }),
{
    let s = ParserState { config, active: Seq::empty(), recent: Seq::empty() };
    let payload = seq![event, flags, (duration / 256) as u8, (duration % 256) as u8];
    let packet = speech_packet(payload, payload_type, timestamp, sequence, ssrc);
    lemma_plain_packet_reads_back(payload, payload_type, timestamp, sequence, ssrc);
    s.active.lemma_filter_len(is_overdue(now));
    s.active.lemma_filter_len(is_lasting(now));
    let (t, seen) = expired(s, now);
    assert(t.active.len() == 0 && t.recent.len() == 0 && seen.len() == 0);
    assert(be16_at(payload, 2) == duration);
    let key = EventKey { ssrc, timestamp, event };
    assert(!remembered(t.recent, key));
    lemma_digits_of_events(event);
    if payload_type % 128 == capability.payload_type {
        lemma_new_event_begins_a_press(
            t,
            seen,
            key,
            digit_of_event(event)->Some_0,
            duration,
            flags >= 128,
            now,
        );
    }
}

// ---------------------------------------------------------------------------
// Leases.

/// A session's digits travel from its own leg; another session has none.
pub proof fn lemma_direction_of_a_session(bindings: DtmfSessionBindings, session: Seq<char>)
    ensures
        direction_of(None, session) == Err::<DtmfRelayDirection, _>(
            CapabilityError::BindingsUnavailable,
        ),
        direction_of(Some(bindings), bindings.caller_session_id@) == Ok::<_, CapabilityError>(
            DtmfRelayDirection::CallerToCallee,
        ),
        bindings.callee_session_id@ != bindings.caller_session_id@ ==> direction_of(
            Some(bindings),
            bindings.callee_session_id@,
        ) == Ok::<_, CapabilityError>(DtmfRelayDirection::CalleeToCaller),
        session != bindings.caller_session_id@ && session != bindings.callee_session_id@
            ==> direction_of(Some(bindings), session) == Err::<DtmfRelayDirection, _>(
            CapabilityError::StaleSourceSession,
        ),
{
}

/// When a lease is granted anew: the bridge runs, something is to be looked at, the
/// session is one of the two, the name is free, the generation is not of the future,
/// telephone events were negotiated for that leg, and nobody else collects there
/// where it is to collect.
pub proof fn lemma_when_a_lease_is_granted(
    leases: Map<Seq<char>, Lease>,
    bindings: DtmfSessionBindings,
    stopped: bool,
    caller: ParserConfig,
    callee: ParserConfig,
    request: LeaseRequest,
)
    requires
        bindings.caller_session_id@ != bindings.callee_session_id@,
        !leases.contains_key(request.lease_id),
    ensures
        ({
            let plan = acquisition(leases, Some(bindings), stopped, caller, callee, request);
            let of_caller = request.source_session_id == bindings.caller_session_id@;
            let of_callee = request.source_session_id == bindings.callee_session_id@;
            let sound = !stopped && request.mode != DtmfMediaMode::Transparent;
            &&& sound && of_caller && request.requested_generation <= caller.generation
                && caller.capability is Some && (request.mode == DtmfMediaMode::Observe || !leased(
                leases,
                DtmfRelayDirection::CallerToCallee,
                DtmfMediaMode::Collect,
            )) <==> plan == Ok::<_, CapabilityError>(
                AcquirePlan::Install(DtmfRelayDirection::CallerToCallee),
            )
            &&& sound && of_callee && request.requested_generation <= callee.generation
                && callee.capability is Some && (request.mode == DtmfMediaMode::Observe || !leased(
                leases,
                DtmfRelayDirection::CalleeToCaller,
                DtmfMediaMode::Collect,
            )) <==> plan == Ok::<_, CapabilityError>(
                AcquirePlan::Install(DtmfRelayDirection::CalleeToCaller),
            )
            &&& stopped ==> plan == Err::<AcquirePlan, _>(CapabilityError::Terminating)
            &&& !stopped && request.mode == DtmfMediaMode::Transparent ==> plan == Err::<
                AcquirePlan,
                _,
            >(CapabilityError::InvalidMode)
            &&& sound && !of_caller && !of_callee ==> plan == Err::<AcquirePlan, _>(
                CapabilityError::StaleSourceSession,
            )
            &&& sound && of_caller && request.requested_generation > caller.generation ==> plan
                == Err::<AcquirePlan, _>(CapabilityError::StaleMediaGeneration)
            &&& sound && of_caller && request.requested_generation <= caller.generation
                && caller.capability is None ==> plan == Err::<AcquirePlan, _>(
                CapabilityError::NotNegotiated,
            )
        }),
{
}

/// A name that another lease has is refused, and one that was released stays so.
pub proof fn lemma_lease_names_are_taken_once(
    leases: Map<Seq<char>, Lease>,
    bindings: DtmfSessionBindings,
    caller: ParserConfig,
    callee: ParserConfig,
    request: LeaseRequest,
)
    requires
        leases.contains_key(request.lease_id),
        request.mode != DtmfMediaMode::Transparent,
        request.source_session_id == bindings.caller_session_id@ || request.source_session_id
            == bindings.callee_session_id@,
    ensures
        leases[request.lease_id].request != request ==> acquisition(
            leases,
            Some(bindings),
            false,
            caller,
            callee,
            request,
        ) == Err::<AcquirePlan, _>(CapabilityError::LeaseIdCollision),
        leases[request.lease_id].request == request && !leases[request.lease_id].active
            ==> acquisition(leases, Some(bindings), false, caller, callee, request) == Err::<
            AcquirePlan,
            _,
        >(CapabilityError::LeaseReleased),
{
}

/// A relay is set to what its leases ask for: it collects where one of them collects,
/// observes where one observes and none collects, and is transparent otherwise.
pub proof fn lemma_strongest_lease_wins(
    leases: Map<Seq<char>, Lease>,
    direction: DtmfRelayDirection,
    id: Seq<char>,
)
    requires
        leases.contains_key(id),
        leases[id].active,
        leases[id].direction == direction,
    ensures
        leases[id].request.mode == DtmfMediaMode::Collect ==> desired(leases, direction)
            == DtmfMediaMode::Collect,
        leases[id].request.mode == DtmfMediaMode::Observe ==> desired(leases, direction)
            != DtmfMediaMode::Transparent,
{
    assert(holds(leases[id], direction, leases[id].request.mode));
}

/// Where no lease of a direction is in force, its relay is transparent; where none
/// collects, it does not collect.
pub proof fn lemma_unleased_relay_is_transparent(
    leases: Map<Seq<char>, Lease>,
    direction: DtmfRelayDirection,
)
    ensures
        (forall|id: Seq<char>| #[trigger]
            leases.contains_key(id) ==> !leases[id].active || leases[id].direction != direction)
            ==> desired(leases, direction) == DtmfMediaMode::Transparent,
        (forall|id: Seq<char>| #[trigger]
            leases.contains_key(id) ==> leases[id].request.mode != DtmfMediaMode::Collect)
            ==> desired(leases, direction) != DtmfMediaMode::Collect,
{
}

/// A relay that is set to another mode works in a new generation, by what can be
/// detected of what was negotiated; one that is in the mode already stays as it is.
pub proof fn lemma_other_mode_is_another_generation(config: ParserConfig, mode: DtmfMediaMode)
    ensures
        set_to(config, mode).mode == mode,
        config.mode == mode ==> set_to(config, mode) == config,
        config.mode != mode && config.generation < u64::MAX ==> set_to(config, mode).generation
            == config.generation + 1,
        config.capability matches Some(capability) ==> (capability.detectable ==> set_to(
            config,
            mode,
        ).capability == Some(capability)),
{
}

/// The words for what stands in the way of a lease.
pub proof fn lemma_words_for_refused_leases()
    ensures
        CapabilityError::Terminating.code() == "call_or_leg_terminating"@,
        CapabilityError::InvalidMode.code() == "invalid_dtmf_capability_mode"@,
        CapabilityError::BindingsUnavailable.code() == "dtmf_session_bindings_unavailable"@,
        CapabilityError::StaleSourceSession.code() == "stale_source_session"@,
        CapabilityError::LeaseIdCollision.code() == "media_capability_lease_id_collision"@,
        CapabilityError::LeaseReleased.code() == "media_capability_lease_released"@,
        CapabilityError::StaleMediaGeneration.code() == "stale_media_generation"@,
        CapabilityError::NotNegotiated.code() == "dtmf_not_negotiated"@,
        CapabilityError::CollectorConflict.code() == "dtmf_collector_conflict"@,
        CapabilityError::LeaseNotFound.code() == "media_capability_lease_not_found"@,
        CapabilityError::PolicyApplyTimeout.code() == "dtmf_policy_apply_timeout"@,
{
}

/// Room for one more press is made by forgetting the oldest finished events, and no more
/// of them than it takes.
pub proof fn lemma_oldest_events_make_room(active: nat, recent: Seq<RecentEvent>)
    ensures
        active + recent.len() <= 31 ==> with_room(active, recent) == recent,
        active + recent.len() > 31 && active <= 31 ==> with_room(active, recent) == recent.skip(
            active + recent.len() - 31,
        ) && active + with_room(active, recent).len() == 31,
        active > 31 ==> with_room(active, recent).len() == 0,
{
    if active + recent.len() > 31 && active <= 31 {
        assert(recent.skip(active + recent.len() - 31).len() == 31 - active);
        if active + recent.len() - 31 >= recent.len() {
            assert(recent.skip(recent.len() as int) =~= Seq::<RecentEvent>::empty());
        }
    }
}

/// A press that is over is remembered by its key, from now on.
pub proof fn lemma_finished_press_is_remembered_by_its_key(press: ActivePress, now: u64)
    ensures
        finished_at(now)(press).key == press.key,
        finished_at(now)(press).completed == now,
{
}

/// In each direction one lease collects at most.
pub proof fn lemma_two_collectors_are_one(
    leases: Map<Seq<char>, Lease>,
    a: Seq<char>,
    b: Seq<char>,
    direction: DtmfRelayDirection,
)
    requires
        one_collector(leases),
        leases.contains_key(a),
        leases.contains_key(b),
        holds(leases[a], direction, DtmfMediaMode::Collect),
        holds(leases[b], direction, DtmfMediaMode::Collect),
    ensures
        a == b,
{
}

/// An event was announced where its own bit of the mask is set, up to the last event that
/// stands for a digit.
pub proof fn lemma_bits_of_events(set: DtmfEventSet, event: u8)
    ensures
        event <= 16 ==> (set.has(event) <==> set.mask & (1u32 << (event as u32)) != 0),
        event > 16 ==> !set.has(event),
{
    let mask = set.mask;
    let bit = event as u32;
    if event <= 16 {
        assert((mask >> bit) % 2 == 1 <==> mask & (1u32 << bit) != 0) by (bit_vector)
            requires
                bit <= 16,
        ;
    }
}

/// A key is remembered exactly where an event that has it is among the recent ones.
pub proof fn lemma_which_keys_are_remembered(recent: Seq<RecentEvent>, key: EventKey, i: int)
    ensures
        0 <= i < recent.len() ==> remembered(recent, recent[i].key),
        remembered(recent, key) <==> recent.map_values(|e: RecentEvent| e.key).contains(key),
{
    let keys = recent.map_values(|e: RecentEvent| e.key);
    if remembered(recent, key) {
        let k = choose|k: int| 0 <= k < recent.len() && (#[trigger] recent[k]).key == key;
        assert(keys[k] == key);
    }
    if keys.contains(key) {
        let k = choose|k: int| 0 <= k < keys.len() && keys[k] == key;
        assert(recent[k].key == key);
    }
}

} // verus!
