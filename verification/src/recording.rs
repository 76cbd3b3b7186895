//! Recording a call: taking packets off the relay, decoding G.711, placing the
//! samples of both sides on one timeline, and describing the resulting file.

use crate::bytes::{be32_at, copy_range, le16, le32, push_le16, push_le32, push_range, read_be32};
use crate::rtp::{find_payload_start, has_padding, payload_start};
use crate::text::{chars_of, join2, join4, text_of};
use std::collections::VecDeque;
use crate::words::{is_white_space, white_space};
use vstd::prelude::*;

verus! {

/// Samples per second.
pub const SAMPLE_RATE: u32 = 8_000;

pub const CHANNELS: u16 = 2;

pub const BITS_PER_SAMPLE: u16 = 16;

/// How many packets wait for the recorder.
pub const RECORDING_QUEUE_CAPACITY: usize = 2048;

/// The longest gap between packets that is filled with silence.
pub const MAX_TIMESTAMP_GAP_SAMPLES: usize = 40_000;

/// Nanoseconds in a millisecond.
pub const NANOS_PER_MS: u64 = 1_000_000;

/// What is to be recorded, and where.
#[derive(Debug, Clone)]
pub struct RecordingSpec {
    pub call_id: String,
    pub domain_id: String,
    pub caller_number: String,
    pub callee_number: String,
    pub started_at_ms: u64,
    pub recording_dir: String,
    pub payload_types: Vec<u8>,
}

#[derive(Debug, Clone, Copy, PartialEq, Eq, Structural)]
pub enum RecordingSide {
    Caller,
    Callee,
}

/// One packet on its way to the recorder.
#[derive(Debug, Clone)]
pub struct RecorderMessage {
    pub side: RecordingSide,
    pub packet: Vec<u8>,
    pub observed_at: u64,
}

#[verifier::ext_equal]
pub struct TappedPacket {
    pub side: RecordingSide,
    pub packet: Seq<u8>,
    pub observed_at: u64,
}

impl RecorderMessage {
    pub open spec fn view(&self) -> TappedPacket {
        TappedPacket { side: self.side, packet: self.packet@, observed_at: self.observed_at }
    }
}

/// The sending end of the bounded queue between the relay and the recorder, with
/// its counts. It never waits: what does not fit is counted and dropped.
pub struct RecordingTapSender {
    pub queue: VecDeque<RecorderMessage>,
    pub connected: bool,
    pub packets_tapped: u64,
    pub packets_dropped: u64,
}

impl RecordingTapSender {
    /// The packets that wait, in order.
    pub open spec fn waiting(self) -> Seq<TappedPacket> {
        Seq::new(self.queue@.len(), |i: int| self.queue@[i]@)
    }

    pub open spec fn wf(self) -> bool {
        self.queue@.len() <= RECORDING_QUEUE_CAPACITY
    }

    pub fn new() -> (tap: Self)
        ensures
            tap.wf(),
            tap.waiting() == Seq::<TappedPacket>::empty(),
            tap.connected,
            tap.packets_tapped == 0,
            tap.packets_dropped == 0,
    {
        let tap = RecordingTapSender {
            queue: VecDeque::new(),
            connected: true,
            packets_tapped: 0,
            packets_dropped: 0,
        };
        assert(tap.waiting() =~= Seq::<TappedPacket>::empty());
        tap
    }

    /// Hands a copy of the packet to the recorder where the recorder listens and
    /// the queue has room, and counts it as dropped otherwise.
    pub fn tap(&mut self, side: RecordingSide, packet: &[u8], observed_at: u64)
        requires
            old(self).wf(),
        ensures
            final(self).wf(),
            final(self).connected == old(self).connected,
            if old(self).connected && old(self).waiting().len() < RECORDING_QUEUE_CAPACITY {
                &&& final(self).waiting() == old(self).waiting().push(
                    TappedPacket { side, packet: packet@, observed_at },
                )
                &&& final(self).packets_tapped == old(self).packets_tapped.wrapping_add(1)
                &&& final(self).packets_dropped == old(self).packets_dropped
            } else {
                &&& final(self).waiting() == old(self).waiting()
                &&& final(self).packets_tapped == old(self).packets_tapped
                &&& final(self).packets_dropped == old(self).packets_dropped.wrapping_add(1)
            },
    {
        let ghost before = self.waiting();
        if self.connected && self.queue.len() < RECORDING_QUEUE_CAPACITY {
            let copy = copy_range(packet, 0, packet.len());
            assert(packet@.subrange(0, packet@.len() as int) =~= packet@);
            let message = RecorderMessage { side, packet: copy, observed_at };
            self.queue.push_back(message);
            self.packets_tapped = self.packets_tapped.wrapping_add(1);
            assert(self.waiting() =~= before.push(
                TappedPacket { side, packet: packet@, observed_at },
            ));
        } else {
            self.packets_dropped = self.packets_dropped.wrapping_add(1);
        }
    }

    /// Takes the oldest waiting packet.
    pub fn take(&mut self) -> (message: Option<RecorderMessage>)
        requires
            old(self).wf(),
        ensures
            final(self).wf(),
            final(self).connected == old(self).connected,
            final(self).packets_tapped == old(self).packets_tapped,
            final(self).packets_dropped == old(self).packets_dropped,
            match message {
                Some(m) => old(self).waiting().len() > 0 && m@ == old(self).waiting()[0]
                    && final(self).waiting() == old(self).waiting().skip(1),
                None => old(self).waiting().len() == 0 && final(self).waiting() == old(
                    self,
                ).waiting(),
            },
    {
        let ghost before = self.waiting();
        let message = self.queue.pop_front();
        if message.is_some() {
            assert(self.waiting() =~= before.skip(1));
        }
        message
    }
}

/// The parts of an RTP packet that the recorder reads.
pub struct ParsedRtp {
    pub payload_type: u8,
    pub timestamp: u32,
    pub payload: Vec<u8>,
}

#[verifier::ext_equal]
pub struct AudioPacket {
    pub payload_type: u8,
    pub timestamp: u32,
    pub payload: Seq<u8>,
}

impl ParsedRtp {
    pub open spec fn view(&self) -> AudioPacket {
        AudioPacket {
            payload_type: self.payload_type,
            timestamp: self.timestamp,
            payload: self.payload@,
        }
    }
}

/// What a packet holds: `None` where it is no RTP packet or claims more padding
/// than follows its header.
pub open spec fn audio_of(p: Seq<u8>) -> Option<AudioPacket> {
    match payload_start(p) {
        None => None,
        Some(start) => {
            let padding = if has_padding(p) {
                p.last() as int
            } else {
                0
            };
            if padding > p.len() - start {
                None
            } else {
                Some(
                    AudioPacket {
                        payload_type: (p[1] % 128) as u8,
                        timestamp: be32_at(p, 4),
                        payload: p.subrange(start, p.len() - padding),
                    },
                )
            }
        },
    }
}

pub fn parse_rtp(packet: &[u8]) -> (parsed: Option<ParsedRtp>)
    ensures
        parsed is Some <==> audio_of(packet@) is Some,
        parsed matches Some(rtp) ==> rtp@ == audio_of(packet@)->Some_0,
{
    let start = match find_payload_start(packet) {
        Some(start) => start,
        None => return None,
    };
    let padding: usize = if (packet[0] / 32) % 2 == 1 {
        packet[packet.len() - 1] as usize
    } else {
        0
    };
    if padding > packet.len() - start {
        return None;
    }
    Some(
        ParsedRtp {
            payload_type: packet[1] % 128,
            timestamp: read_be32(packet, 4),
            payload: copy_range(packet, start, packet.len() - padding),
        },
    )
}

/// Two to the power of `e`.
pub open spec fn two_to(e: nat) -> int
    decreases e,
{
    if e == 0 {
        1
    } else {
        2 * two_to((e - 1) as nat)
    }
}

fn small_power(e: u8) -> (power: i32)
    requires
        e < 8,
    ensures
        power == two_to(e as nat),
        1 <= power <= 128,
{
    proof {
        reveal_with_fuel(two_to, 9);
    }
    match e {
        0 => 1,
        1 => 2,
        2 => 4,
        3 => 8,
        4 => 16,
        5 => 32,
        6 => 64,
        _ => 128,
    }
}

/// The sample of a mu-law byte: all bits inverted, it is a sign, three bits of
/// exponent and four of mantissa, biased by 132.
pub open spec fn mulaw_sample(value: u8) -> int {
    let v = 255 - value;
    let magnitude = ((v % 16) * 8 + 132) * two_to(((v / 16) % 8) as nat) - 132;
    if v >= 128 {
        -magnitude
    } else {
        magnitude
    }
}

/// The sample of an A-law byte: every other bit inverted, it is a sign, three
/// bits of exponent and four of mantissa.
pub open spec fn alaw_sample(value: u8) -> int {
    let v = (value ^ 0x55u8) as int;
    let exponent = (v / 16) % 8;
    let step = (v % 16) * 16 + 8;
    let magnitude = if exponent == 0 {
        step
    } else {
        (step + 256) * two_to((exponent - 1) as nat)
    };
    if v >= 128 {
        magnitude
    } else {
        -magnitude
    }
}

pub fn decode_mulaw(value: u8) -> (sample: i16)
    ensures
        sample == mulaw_sample(value),
{
    let v: u8 = 255 - value;
    let power = small_power((v / 16) % 8);
    let base: i32 = (v % 16) as i32 * 8 + 132;
    assert(132 <= base * power <= 252 * 128) by (nonlinear_arith)
        requires
            132 <= base <= 252,
            1 <= power <= 128,
    ;
    let magnitude: i32 = base * power - 132;
    if v >= 128 {
        (-magnitude) as i16
    } else {
        magnitude as i16
    }
}

pub fn decode_alaw(value: u8) -> (sample: i16)
    ensures
        sample == alaw_sample(value),
{
    let v: u8 = value ^ 0x55u8;
    let exponent: u8 = (v / 16) % 8;
    let step: i32 = (v % 16) as i32 * 16 + 8;
    let mut magnitude: i32 = step;
    if exponent != 0 {
        let power = small_power(exponent - 1);
        proof {
            reveal_with_fuel(two_to, 8);
        }
        let base: i32 = step + 256;
        assert(two_to((exponent - 1) as nat) <= 64);
        assert(264 <= base * power <= 504 * 64) by (nonlinear_arith)
            requires
                264 <= base <= 504,
                1 <= power <= 64,
        ;
        magnitude = base * power;
    }
    if v >= 128 {
        magnitude as i16
    } else {
        (-magnitude) as i16
    }
}

/// Two mu-law bytes that differ in the first bit alone are samples of opposite
/// sign.
pub proof fn lemma_mulaw_is_antisymmetric(value: u8)
    requires
        value < 128,
    ensures
        mulaw_sample((value + 128) as u8) == -mulaw_sample(value),
{
    let v = 255 - value;
    let w = 255 - (value + 128);
    assert(v % 16 == w % 16 && (v / 16) % 8 == (w / 16) % 8);
}

/// Two A-law bytes that differ in the first bit alone are samples of opposite
/// sign.
pub proof fn lemma_alaw_is_antisymmetric(value: u8)
    requires
        value < 128,
    ensures
        alaw_sample((value + 128) as u8) == -alaw_sample(value),
{
    assert(value < 128 ==> ((value + 128) as u8) ^ 0x55u8 == (value ^ 0x55u8) + 128) by (bit_vector);
    assert(value < 128 ==> value ^ 0x55u8 < 128) by (bit_vector);
}

/// How a payload of the given type is decoded: PCMU and PCMA alone.
pub open spec fn decoded(payload_type: u8, payload: Seq<u8>) -> Seq<i16> {
    Seq::new(
        payload.len(),
        |i: int|
            if payload_type == 0 {
                mulaw_sample(payload[i]) as i16
            } else {
                alaw_sample(payload[i]) as i16
            },
    )
}

fn decode_payload(payload_type: u8, payload: &Vec<u8>) -> (samples: Vec<i16>)
    requires
        payload_type == 0 || payload_type == 8,
    ensures
        samples@ == decoded(payload_type, payload@),
{
    let mut samples: Vec<i16> = Vec::new();
    let mut i: usize = 0;
    while i < payload.len()
        invariant
            i <= payload.len(),
            payload_type == 0 || payload_type == 8,
            samples@ == decoded(payload_type, payload@).take(i as int),
        decreases payload.len() - i,
    {
        let sample = if payload_type == 0 {
            decode_mulaw(payload[i])
        } else {
            decode_alaw(payload[i])
        };
        samples.push(sample);
        i = i + 1;
        assert(decoded(payload_type, payload@).take(i as int) =~= decoded(
            payload_type,
            payload@,
        ).take(i - 1).push(sample));
    }
    assert(decoded(payload_type, payload@).take(i as int) =~= decoded(payload_type, payload@));
    samples
}

/// A sample as two bytes, the least significant first, in two's complement.
pub open spec fn sample_bytes(sample: i16) -> Seq<u8> {
    le16((if sample >= 0 { sample as int } else { sample + 65536 }) as u16)
}

/// The samples as bytes, one after the other.
pub open spec fn samples_bytes(samples: Seq<i16>) -> Seq<u8>
    decreases samples.len(),
{
    if samples.len() == 0 {
        Seq::empty()
    } else {
        samples_bytes(samples.drop_last()) + sample_bytes(samples.last())
    }
}

fn encode_samples(samples: &Vec<i16>, from: usize) -> (bytes: Vec<u8>)
    requires
        from <= samples.len(),
    ensures
        bytes@ == samples_bytes(samples@.skip(from as int)),
{
    let mut bytes: Vec<u8> = Vec::new();
    let mut i: usize = from;
    let ghost rest = samples@.skip(from as int);
    assert(rest.take(0) =~= Seq::<i16>::empty());
    while i < samples.len()
        invariant
            from <= i <= samples.len(),
            rest == samples@.skip(from as int),
            bytes@ == samples_bytes(rest.take(i - from)),
        decreases samples.len() - i,
    {
        let sample: i16 = samples[i];
        let word: u16 = if sample >= 0 {
            sample as u16
        } else {
            (sample as i32 + 65536) as u16
        };
        push_le16(&mut bytes, word);
        i = i + 1;
        assert(rest.take(i - from).drop_last() =~= rest.take(i - from - 1));
        assert(rest.take(i - from).last() == sample);
    }
    assert(rest.take(i - from) =~= rest);
    bytes
}

/// Where the recording of one side stands.
#[derive(Debug, Clone, Copy, PartialEq, Eq)]
pub struct ChannelTimeline {
    pub started: u64,
    pub samples_written: u64,
    pub last_timestamp: Option<u32>,
    pub last_sample_count: usize,
}

/// What one packet adds to a channel: silence, then its samples behind the first
/// `skip`.
#[derive(Debug, Clone, Copy, PartialEq, Eq, Structural)]
pub struct PacketPlacement {
    pub silence: usize,
    pub skip: usize,
}

/// The distance from `last` to `timestamp` on the wrapping RTP clock.
pub open spec fn timestamp_delta(timestamp: u32, last: u32) -> int {
    if timestamp >= last {
        timestamp - last
    } else {
        timestamp + 0x1_0000_0000 - last
    }
}

/// The silence before the first packet: a sample for every eighth of a
/// millisecond since the start, in whole milliseconds.
pub open spec fn leading_silence(started: u64, observed_at: u64) -> int {
    let elapsed_ms = if observed_at >= started {
        (observed_at - started) / (NANOS_PER_MS as int)
    } else {
        0
    };
    if elapsed_ms * 8 <= u32::MAX {
        elapsed_ms * 8
    } else {
        u32::MAX as int
    }
}

impl ChannelTimeline {
    /// Where a packet goes. A gap is filled with silence unless it is too long;
    /// what the previous packet already covers is left out.
    pub open spec fn placement(self, timestamp: u32, count: nat, observed_at: u64) -> PacketPlacement {
        match self.last_timestamp {
            None => PacketPlacement {
                silence: leading_silence(self.started, observed_at) as usize,
                skip: 0,
            },
            Some(last) => {
                let delta = timestamp_delta(timestamp, last);
                if delta >= self.last_sample_count {
                    let gap = delta - self.last_sample_count;
                    PacketPlacement {
                        silence: if gap <= MAX_TIMESTAMP_GAP_SAMPLES {
                            gap as usize
                        } else {
                            0
                        },
                        skip: 0,
                    }
                } else {
                    let overlap = self.last_sample_count - delta;
                    PacketPlacement {
                        silence: 0,
                        skip: if overlap <= count {
                            overlap as usize
                        } else {
                            count as usize
                        },
                    }
                }
            },
        }
    }

    /// Where the channel stands after the packet.
    pub open spec fn advanced(self, timestamp: u32, count: usize, observed_at: u64) -> Self {
        let place = self.placement(timestamp, count as nat, observed_at);
        ChannelTimeline {
            started: self.started,
            samples_written: saturated(
                saturated(self.samples_written + place.silence) + (count - place.skip),
            ),
            last_timestamp: Some(timestamp),
            last_sample_count: count,
        }
    }

    pub fn create(started: u64) -> (timeline: Self)
        ensures
            timeline == (ChannelTimeline {
                started,
                samples_written: 0,
                last_timestamp: None,
                last_sample_count: 0,
            }),
    {
        ChannelTimeline { started, samples_written: 0, last_timestamp: None, last_sample_count: 0 }
    }

    /// Places a packet of `count` samples.
    pub fn write_packet(&mut self, timestamp: u32, count: usize, observed_at: u64) -> (place:
        PacketPlacement)
        ensures
            place == old(self).placement(timestamp, count as nat, observed_at),
            place.skip <= count,
            *final(self) == old(self).advanced(timestamp, count, observed_at),
    {
        let mut silence: usize = 0;
        let mut skip: usize = 0;
        match self.last_timestamp {
            Some(last) => {
                let delta: usize = timestamp.wrapping_sub(last) as usize;
                if delta >= self.last_sample_count {
                    let gap: usize = delta - self.last_sample_count;
                    if gap <= MAX_TIMESTAMP_GAP_SAMPLES {
                        silence = gap;
                    }
                } else {
                    let overlap: usize = self.last_sample_count - delta;
                    skip = if overlap <= count {
                        overlap
                    } else {
                        count
                    };
                }
            },
            None => {
                let elapsed_ms: u64 = observed_at.saturating_sub(self.started) / NANOS_PER_MS;
                let leading: u64 = elapsed_ms * 8;
                silence = if leading <= u32::MAX as u64 {
                    leading as usize
                } else {
                    u32::MAX as usize
                };
            },
        }
        self.samples_written = self.samples_written.saturating_add(silence as u64);
        self.samples_written = self.samples_written.saturating_add((count - skip) as u64);
        self.last_timestamp = Some(timestamp);
        self.last_sample_count = count;
        PacketPlacement { silence, skip }
    }
}

/// `n`, or the largest 64-bit number where `n` is larger.
pub open spec fn saturated(n: int) -> u64 {
    if n <= u64::MAX {
        n as u64
    } else {
        u64::MAX
    }
}

/// Two bytes stand for every sample.
pub proof fn lemma_samples_len(samples: Seq<i16>)
    ensures
        samples_bytes(samples).len() == 2 * samples.len(),
    decreases samples.len(),
{
    if samples.len() > 0 {
        lemma_samples_len(samples.drop_last());
    }
}

/// What a channel counts is what is appended to its file, at two bytes a sample, as
/// long as the count fits.
pub proof fn lemma_count_is_what_is_written(
    channel: ChannelTimeline,
    timestamp: u32,
    samples: Seq<i16>,
    observed_at: u64,
)
    requires
        samples.len() <= usize::MAX,
        ({
            let place = channel.placement(timestamp, samples.len(), observed_at);
            channel.samples_written + place.silence + samples.len() <= u64::MAX
        }),
    ensures
        ({
            let place = channel.placement(timestamp, samples.len(), observed_at);
            let after = channel.advanced(timestamp, samples.len() as usize, observed_at);
            2 * after.samples_written == 2 * channel.samples_written + 2 * place.silence
                + samples_bytes(samples.skip(place.skip as int)).len()
        }),
{
    let place = channel.placement(timestamp, samples.len(), observed_at);
    assert(place.skip <= samples.len());
    lemma_samples_len(samples.skip(place.skip as int));
}

/// A packet that follows the one before without a gap is appended as it is.
pub proof fn lemma_next_packet_follows(channel: ChannelTimeline, timestamp: u32, count: nat, at: u64)
    requires
        channel.last_timestamp matches Some(last) && timestamp_delta(timestamp, last)
            == channel.last_sample_count,
    ensures
        channel.placement(timestamp, count, at) == (PacketPlacement { silence: 0, skip: 0 }),
{
}

/// A packet that comes twice adds nothing.
pub proof fn lemma_repeated_packet_adds_nothing(
    channel: ChannelTimeline,
    timestamp: u32,
    count: usize,
    at: u64,
    again_at: u64,
)
    ensures
        ({
            let once = channel.advanced(timestamp, count, at);
            &&& once.placement(timestamp, count as nat, again_at) == (PacketPlacement {
                silence: 0,
                skip: count,
            })
            &&& once.advanced(timestamp, count, again_at) == once
        }),
{
}

/// What is to be appended to the raw file of one side: `silence` samples of
/// zero, then the bytes.
pub struct RecordedChunk {
    pub side: RecordingSide,
    pub silence: usize,
    pub bytes: Vec<u8>,
}

/// The recorder: which payload types it takes, and where both sides stand.
pub struct Recorder {
    pub payload_types: Vec<u8>,
    pub caller: ChannelTimeline,
    pub callee: ChannelTimeline,
}

/// Whether the recorder takes packets of this payload type.
pub open spec fn recordable(payload_types: Seq<u8>, payload_type: u8) -> bool {
    payload_types.contains(payload_type) && (payload_type == 0 || payload_type == 8)
}

fn lists(payload_types: &Vec<u8>, payload_type: u8) -> (found: bool)
    ensures
        found == payload_types@.contains(payload_type),
{
    let mut i: usize = 0;
    while i < payload_types.len()
        invariant
            i <= payload_types.len(),
            forall|k: int| 0 <= k < i ==> payload_types@[k] != payload_type,
        decreases payload_types.len() - i,
    {
        if payload_types[i] == payload_type {
            return true;
        }
        i = i + 1;
    }
    false
}

impl Recorder {
    pub open spec fn timeline(self, side: RecordingSide) -> ChannelTimeline {
        match side {
            RecordingSide::Caller => self.caller,
            RecordingSide::Callee => self.callee,
        }
    }

    pub fn new(payload_types: Vec<u8>, started: u64) -> (recorder: Self)
        ensures
            recorder.payload_types == payload_types,
            forall|side: RecordingSide|
                #[trigger] recorder.timeline(side) == (ChannelTimeline {
                    started,
                    samples_written: 0,
                    last_timestamp: None,
                    last_sample_count: 0,
                }),
    {
        Recorder {
            payload_types,
            caller: ChannelTimeline::create(started),
            callee: ChannelTimeline::create(started),
        }
    }

    /// Takes in one packet. What is no RTP packet, or not of a recorded type,
    /// leaves everything as it is.
    pub fn take_packet(&mut self, message: &RecorderMessage) -> (chunk: Option<RecordedChunk>)
        ensures
            final(self).payload_types == old(self).payload_types,
            match audio_of(message.packet@) {
                None => chunk is None && *final(self) == *old(self),
                Some(audio) => if !recordable(old(self).payload_types@, audio.payload_type) {
                    chunk is None && *final(self) == *old(self)
                } else {
                    let samples = decoded(audio.payload_type, audio.payload);
                    let before = old(self).timeline(message.side);
                    let place = before.placement(
                        audio.timestamp,
                        samples.len(),
                        message.observed_at,
                    );
                    &&& chunk matches Some(out)
                    &&& out.side == message.side
                    &&& out.silence == place.silence
                    &&& out.bytes@ == samples_bytes(samples.skip(place.skip as int))
                    &&& final(self).timeline(message.side) == before.advanced(
                        audio.timestamp,
                        samples.len() as usize,
                        message.observed_at,
                    )
                    &&& forall|other: RecordingSide|
                        other != message.side ==> #[trigger] final(self).timeline(other) == old(
                            self,
                        ).timeline(other)
                },
            },
    {
        let parsed = match parse_rtp(message.packet.as_slice()) {
            Some(parsed) => parsed,
            None => return None,
        };
        if !lists(&self.payload_types, parsed.payload_type) {
            return None;
        }
        if parsed.payload_type != 0 && parsed.payload_type != 8 {
            return None;
        }
        let samples = decode_payload(parsed.payload_type, &parsed.payload);
        let place = match message.side {
            RecordingSide::Caller => self.caller.write_packet(
                parsed.timestamp,
                samples.len(),
                message.observed_at,
            ),
            RecordingSide::Callee => self.callee.write_packet(
                parsed.timestamp,
                samples.len(),
                message.observed_at,
            ),
        };
        let bytes = encode_samples(&samples, place.skip);
        Some(RecordedChunk { side: message.side, silence: place.silence, bytes })
    }
}

/// Why a WAV file cannot be written.
#[derive(Debug, Clone, Copy, PartialEq, Eq, Structural)]
pub enum WavError {
    SizeOverflow,
    ExceedsRiffLimit,
}

/// The size of the sample data: both channels, two bytes a sample.
pub open spec fn wav_data_bytes(total_samples: u64) -> Result<u32, WavError> {
    if total_samples * 4 > u64::MAX {
        Err(WavError::SizeOverflow)
    } else if total_samples * 4 > u32::MAX - 36 {
        Err(WavError::ExceedsRiffLimit)
    } else {
        Ok((total_samples * 4) as u32)
    }
}

pub fn data_size(total_samples: u64) -> (size: Result<u32, WavError>)
    ensures
        size == wav_data_bytes(total_samples),
{
    match total_samples.checked_mul(4) {
        None => Err(WavError::SizeOverflow),
        Some(bytes) => if bytes > u32::MAX as u64 - 36 {
            Err(WavError::ExceedsRiffLimit)
        } else {
            Ok(bytes as u32)
        },
    }
}

/// The header of a PCM WAV file: two channels of 16 bits at 8000 samples a
/// second.
pub open spec fn wav_header(data_bytes: u32) -> Seq<u8> {
    seq![82u8, 73, 70, 70] + le32((36 + data_bytes) as u32) + seq![
        87u8,
        65,
        86,
        69,
        102,
        109,
        116,
        32,
    ] + le32(16) + le16(1) + le16(2) + le32(8000) + le32(32000) + le16(4) + le16(16) + seq![
        100u8,
        97,
        116,
        97,
    ] + le32(data_bytes)
}

/// The 44 bytes of a WAV header for `data_bytes` bytes of samples.
pub fn write_wav_header(data_bytes: u32) -> (header: Vec<u8>)
    requires
        data_bytes <= u32::MAX - 36,
    ensures
        header@ == wav_header(data_bytes),
        header@.len() == 44,
{
    let mut header: Vec<u8> = vec![82u8, 73, 70, 70];
    push_le32(&mut header, 36 + data_bytes);
    let format: Vec<u8> = vec![87u8, 65, 86, 69, 102, 109, 116, 32];
    push_range(&mut header, format.as_slice(), 0, 8);
    push_le32(&mut header, 16);
    push_le16(&mut header, 1);
    push_le16(&mut header, CHANNELS);
    push_le32(&mut header, SAMPLE_RATE);
    push_le32(&mut header, SAMPLE_RATE * CHANNELS as u32 * (BITS_PER_SAMPLE / 8) as u32);
    push_le16(&mut header, CHANNELS * (BITS_PER_SAMPLE / 8));
    push_le16(&mut header, BITS_PER_SAMPLE);
    let data: Vec<u8> = vec![100u8, 97, 116, 97];
    push_range(&mut header, data.as_slice(), 0, 4);
    push_le32(&mut header, data_bytes);
    assert(format@.subrange(0, 8) =~= seq![87u8, 65, 86, 69, 102, 109, 116, 32]);
    assert(data@.subrange(0, 4) =~= seq![100u8, 97, 116, 97]);
    assert(header@ =~= wav_header(data_bytes));
    header
}

/// The bytes of sample `index` of a raw channel, zero behind its end.
pub open spec fn sample_or_silence(raw: Seq<u8>, index: int) -> Seq<u8> {
    if 2 * index + 2 <= raw.len() {
        seq![raw[2 * index], raw[2 * index + 1]]
    } else {
        seq![0u8, 0u8]
    }
}

/// The bytes of sample `index`, zero behind the end.
pub fn read_sample_or_silence(raw: &[u8], index: usize) -> (sample: [u8; 2])
    ensures
        sample@ == sample_or_silence(raw@, index as int),
{
    if index < raw.len() / 2 {
        let sample = [raw[2 * index], raw[2 * index + 1]];
        assert(sample@ =~= sample_or_silence(raw@, index as int));
        sample
    } else {
        let sample = [0u8, 0u8];
        assert(sample@ =~= sample_or_silence(raw@, index as int));
        sample
    }
}

/// The first `total` samples of both channels in turn.
pub open spec fn interleaved(caller: Seq<u8>, callee: Seq<u8>, total: nat) -> Seq<u8>
    decreases total,
{
    if total == 0 {
        Seq::empty()
    } else {
        interleaved(caller, callee, (total - 1) as nat) + sample_or_silence(caller, total - 1)
            + sample_or_silence(callee, total - 1)
    }
}

/// Four bytes come out for every sample.
pub proof fn lemma_interleaved_len(caller: Seq<u8>, callee: Seq<u8>, total: nat)
    ensures
        interleaved(caller, callee, total).len() == 4 * total,
    decreases total,
{
    if total > 0 {
        lemma_interleaved_len(caller, callee, (total - 1) as nat);
    }
}

/// Where each side's samples stand in the interleaved data: those of the caller
/// in the first two bytes of every four, those of the callee in the others.
pub proof fn lemma_interleaved_channels(caller: Seq<u8>, callee: Seq<u8>, total: nat, index: int)
    requires
        0 <= index < total,
    ensures
        interleaved(caller, callee, total).subrange(4 * index, 4 * index + 2) == sample_or_silence(
            caller,
            index,
        ),
        interleaved(caller, callee, total).subrange(4 * index + 2, 4 * index + 4)
            == sample_or_silence(callee, index),
    decreases total,
{
    lemma_interleaved_len(caller, callee, total);
    lemma_interleaved_len(caller, callee, (total - 1) as nat);
    let front = interleaved(caller, callee, (total - 1) as nat);
    let all = interleaved(caller, callee, total);
    if index < total - 1 {
        lemma_interleaved_channels(caller, callee, (total - 1) as nat, index);
        assert(all.subrange(4 * index, 4 * index + 2) =~= front.subrange(4 * index, 4 * index + 2));
        assert(all.subrange(4 * index + 2, 4 * index + 4) =~= front.subrange(
            4 * index + 2,
            4 * index + 4,
        ));
    } else {
        assert(all.subrange(4 * index, 4 * index + 2) =~= sample_or_silence(caller, index));
        assert(all.subrange(4 * index + 2, 4 * index + 4) =~= sample_or_silence(callee, index));
    }
}

pub open spec fn larger(a: u64, b: u64) -> u64 {
    if a >= b {
        a
    } else {
        b
    }
}

/// The WAV file of a recording from the raw samples of both sides.
pub fn interleave_wav(
    caller_raw: &[u8],
    callee_raw: &[u8],
    caller_samples: u64,
    callee_samples: u64,
) -> (file: Result<Vec<u8>, WavError>)
    ensures
        match (wav_data_bytes(larger(caller_samples, callee_samples)), file) {
            (Ok(size), Ok(bytes)) => bytes@ == wav_header(size) + interleaved(
                caller_raw@,
                callee_raw@,
                larger(caller_samples, callee_samples) as nat,
            ) && bytes@.len() == 44 + size,
            (Err(expected), Err(error)) => expected == error,
            _ => false,
        },
{
    let total: u64 = if caller_samples >= callee_samples {
        caller_samples
    } else {
        callee_samples
    };
    let size = match data_size(total) {
        Ok(size) => size,
        Err(error) => return Err(error),
    };
    let mut bytes = write_wav_header(size);
    let mut i: usize = 0;
    let count: usize = total as usize;
    assert(bytes@ =~= wav_header(size) + interleaved(caller_raw@, callee_raw@, 0));
    while i < count
        invariant
            i <= count,
            bytes@ == wav_header(size) + interleaved(caller_raw@, callee_raw@, i as nat),
        decreases count - i,
    {
        let left = read_sample_or_silence(caller_raw, i);
        let right = read_sample_or_silence(callee_raw, i);
        let ghost before = bytes@;
        bytes.push(left[0]);
        bytes.push(left[1]);
        bytes.push(right[0]);
        bytes.push(right[1]);
        i = i + 1;
        assert(bytes@ =~= before + left@ + right@);
        assert(bytes@ =~= wav_header(size) + interleaved(caller_raw@, callee_raw@, i as nat));
    }
    proof {
        lemma_interleaved_len(caller_raw@, callee_raw@, total as nat);
    }
    Ok(bytes)
}

/// The characters that a file name keeps: ASCII letters and digits, dot,
/// underscore and hyphen.
pub open spec fn safe_char(c: char) -> bool {
    ('0' <= c && c <= '9') || ('A' <= c && c <= 'Z') || ('a' <= c && c <= 'z') || c == '.' || c
        == '_' || c == '-'
}

/// Every other character becomes an underscore.
pub open spec fn sanitized(s: Seq<char>) -> Seq<char> {
    Seq::new(
        s.len(),
        |i: int|
            if safe_char(s[i]) {
                s[i]
            } else {
                '_'
            },
    )
}

/// `s` as one component of a path.
pub open spec fn component(s: Seq<char>) -> Seq<char> {
    let clean = sanitized(s);
    if clean.len() == 0 || clean == seq!['.'] || clean == seq!['.', '.'] {
        "unknown"@
    } else {
        clean
    }
}

/// A number as part of a file name.
pub open spec fn number_component(s: Seq<char>) -> Seq<char> {
    if forall|i: int| 0 <= i < s.len() ==> white_space(#[trigger] s[i]) {
        "unknown"@
    } else {
        component(s)
    }
}

pub fn safe_component(value: &str) -> (clean: String)
    ensures
        clean@ == component(value@),
{
    let chars = chars_of(value);
    let mut kept: Vec<char> = Vec::new();
    let mut i: usize = 0;
    while i < chars.len()
        invariant
            i <= chars.len(),
            kept@ == sanitized(chars@).take(i as int),
        decreases chars.len() - i,
    {
        let c: char = chars[i];
        let safe = ('0' <= c && c <= '9') || ('A' <= c && c <= 'Z') || ('a' <= c && c <= 'z') || c
            == '.' || c == '_' || c == '-';
        kept.push(
            if safe {
                c
            } else {
                '_'
            },
        );
        i = i + 1;
        assert(sanitized(chars@).take(i as int) =~= sanitized(chars@).take(i - 1).push(
            sanitized(chars@)[i - 1],
        ));
    }
    assert(sanitized(chars@).take(i as int) =~= sanitized(chars@));
    let dot = kept.len() == 1 && kept[0] == '.';
    let dots = kept.len() == 2 && kept[0] == '.' && kept[1] == '.';
    proof {
        if dot {
            assert(kept@ =~= seq!['.']);
        }
        if dots {
            assert(kept@ =~= seq!['.', '.']);
        }
    }
    if kept.len() == 0 || dot || dots {
        "unknown".to_owned()
    } else {
        text_of(&kept)
    }
}

pub fn safe_number(value: &str) -> (clean: String)
    ensures
        clean@ == number_component(value@),
{
    let chars = chars_of(value);
    let mut i: usize = 0;
    while i < chars.len()
        invariant
            i <= chars.len(),
            chars@ == value@,
            forall|k: int| 0 <= k < i ==> white_space(#[trigger] chars@[k]),
        decreases chars.len() - i,
    {
        if !is_white_space(chars[i]) {
            assert(!white_space(value@[i as int]));
            return safe_component(value);
        }
        i = i + 1;
    }
    "unknown".to_owned()
}

/// A sanitised component names one entry of a directory: it is not empty, holds
/// no path separator and is neither the directory itself nor its parent.
pub proof fn lemma_component_stays_in_directory(s: Seq<char>)
    ensures
        component(s).len() > 0,
        forall|i: int| 0 <= i < component(s).len() ==> safe_char(#[trigger] component(s)[i]),
        !component(s).contains('/'),
        component(s) != seq!['.'],
        component(s) != seq!['.', '.'],
{
    reveal_strlit("unknown");
    assert("unknown"@.len() == 7);
    assert forall|i: int| 0 <= i < component(s).len() implies safe_char(
        #[trigger] component(s)[i],
    ) by {}
    if component(s).contains('/') {
        let i = choose|i: int| 0 <= i < component(s).len() && component(s)[i] == '/';
        assert(safe_char(component(s)[i]));
    }
}

/// Sanitising twice changes nothing more.
pub proof fn lemma_component_is_idempotent(s: Seq<char>)
    ensures
        component(component(s)) == component(s),
{
    lemma_component_stays_in_directory(s);
    assert forall|i: int| 0 <= i < component(s).len() implies sanitized(component(s))[i]
        == component(s)[i] by {
        assert(safe_char(component(s)[i]));
    }
    assert(sanitized(component(s)) =~= component(s));
}

/// The start of a recording as local calendar text: the year, month and day, and
/// the date and time as one word.
pub struct LocalStamp {
    pub year: String,
    pub month: String,
    pub day: String,
    pub stamp: String,
}

/// The directories below the recording root, and the files of one recording.
pub struct RecordingNames {
    pub directory: Vec<String>,
    pub file_name: String,
    pub wav_part: String,
    pub caller_raw: String,
    pub callee_raw: String,
}

/// What a recording's files have in common: when it began, who talked, and the
/// call.
pub open spec fn file_stem(stamp: Seq<char>, caller: Seq<char>, callee: Seq<char>, call: Seq<char>) -> Seq<
    char,
> {
    stamp + "_"@ + number_component(caller) + "_"@ + number_component(callee) + "_"@ + component(
        call,
    )
}

/// Names the files of a recording.
pub fn recording_names(spec: &RecordingSpec, started: &LocalStamp) -> (names: RecordingNames)
    ensures
        names.directory@.len() == 4,
        names.directory@[0]@ == component(spec.domain_id@),
        names.directory@[1]@ == started.year@,
        names.directory@[2]@ == started.month@,
        names.directory@[3]@ == started.day@,
        ({
            let stem = file_stem(
                started.stamp@,
                spec.caller_number@,
                spec.callee_number@,
                spec.call_id@,
            );
            &&& names.file_name@ == stem + ".wav"@
            &&& names.wav_part@ == stem + ".wav.part"@
            &&& names.caller_raw@ == stem + ".caller.raw.part"@
            &&& names.callee_raw@ == stem + ".callee.raw.part"@
        }),
{
    let mut stem = started.stamp.clone();
    stem.append("_");
    stem.append(safe_number(spec.caller_number.as_str()).as_str());
    stem.append("_");
    stem.append(safe_number(spec.callee_number.as_str()).as_str());
    stem.append("_");
    stem.append(safe_component(spec.call_id.as_str()).as_str());
    let mut directory: Vec<String> = Vec::new();
    directory.push(safe_component(spec.domain_id.as_str()));
    directory.push(started.year.clone());
    directory.push(started.month.clone());
    directory.push(started.day.clone());
    RecordingNames {
        directory,
        file_name: join2(stem.as_str(), ".wav"),
        wav_part: join2(stem.as_str(), ".wav.part"),
        caller_raw: join2(stem.as_str(), ".caller.raw.part"),
        callee_raw: join2(stem.as_str(), ".callee.raw.part"),
    }
}

/// What is kept of a recording.
#[derive(Debug, Clone)]
pub struct RecordingRecord {
    pub recording_id: String,
    pub call_id: String,
    pub domain_id: String,
    pub status: String,
    pub caller_number: String,
    pub callee_number: String,
    pub started_at_ms: u64,
    pub ended_at_ms: Option<u64>,
    pub duration_ms: u64,
    pub format: String,
    pub sample_rate: u32,
    pub channel_count: u8,
    pub file_name: String,
    pub storage_root: String,
    pub storage_path: String,
    pub file_size_bytes: u64,
    pub packets_tapped: u64,
    pub packets_dropped: u64,
    pub error_code: Option<String>,
    pub error_message: Option<String>,
}

/// What a record says of the call itself, whatever became of the recording.
pub open spec fn describes(
    record: RecordingRecord,
    call_id: Seq<char>,
    domain_id: Seq<char>,
    caller_number: Seq<char>,
    callee_number: Seq<char>,
    started_at_ms: u64,
) -> bool {
    &&& record.recording_id@ == "recording-"@ + call_id
    &&& record.call_id@ == call_id
    &&& record.domain_id@ == domain_id
    &&& record.caller_number@ == caller_number
    &&& record.callee_number@ == callee_number
    &&& record.started_at_ms == started_at_ms
    &&& record.format@ == "wav"@
    &&& record.sample_rate == 8000
    &&& record.channel_count == 2
}

/// Where a record says the recording is.
pub open spec fn located(
    record: RecordingRecord,
    file_name: Seq<char>,
    root: Seq<char>,
    path: Seq<char>,
    size: u64,
) -> bool {
    &&& record.file_name@ == file_name
    &&& record.storage_root@ == root
    &&& record.storage_path@ == path
    &&& record.file_size_bytes == size
}

/// How a record says the recording ended.
pub open spec fn concluded(
    record: RecordingRecord,
    status: Seq<char>,
    ended_at_ms: Option<u64>,
    duration_ms: u64,
    error_code: Option<Seq<char>>,
    error_message: Option<Seq<char>>,
) -> bool {
    &&& record.status@ == status
    &&& record.ended_at_ms == ended_at_ms
    &&& record.duration_ms == duration_ms
    &&& crate::text::opt_text(record.error_code) == error_code
    &&& crate::text::opt_text(record.error_message) == error_message
}

pub open spec fn counted(record: RecordingRecord, tapped: u64, dropped: u64) -> bool {
    record.packets_tapped == tapped && record.packets_dropped == dropped
}

/// A record of a recording that has come to nothing, to be filled in.
fn base_record(
    call_id: &str,
    domain_id: &str,
    caller_number: &str,
    callee_number: &str,
    started_at_ms: u64,
    status: &str,
    ended_at_ms: u64,
) -> (record: RecordingRecord)
    ensures
        describes(record, call_id@, domain_id@, caller_number@, callee_number@, started_at_ms),
        located(record, Seq::empty(), Seq::empty(), Seq::empty(), 0),
        concluded(record, status@, Some(ended_at_ms), 0, None, None),
        counted(record, 0, 0),
{
    RecordingRecord {
        recording_id: join2("recording-", call_id),
        call_id: call_id.to_owned(),
        domain_id: domain_id.to_owned(),
        status: status.to_owned(),
        caller_number: caller_number.to_owned(),
        callee_number: callee_number.to_owned(),
        started_at_ms,
        ended_at_ms: Some(ended_at_ms),
        duration_ms: 0,
        format: "wav".to_owned(),
        sample_rate: SAMPLE_RATE,
        channel_count: CHANNELS as u8,
        file_name: String::new(),
        storage_root: String::new(),
        storage_path: String::new(),
        file_size_bytes: 0,
        packets_tapped: 0,
        packets_dropped: 0,
        error_code: None,
        error_message: None,
    }
}

/// Whether a record is about the recording of `spec`.
pub open spec fn records_spec(record: RecordingRecord, spec: RecordingSpec) -> bool {
    describes(
        record,
        spec.call_id@,
        spec.domain_id@,
        spec.caller_number@,
        spec.callee_number@,
        spec.started_at_ms,
    )
}

fn spec_record(spec: &RecordingSpec, status: &str, ended_at_ms: u64) -> (record: RecordingRecord)
    ensures
        records_spec(record, *spec),
        located(record, Seq::empty(), Seq::empty(), Seq::empty(), 0),
        concluded(record, status@, Some(ended_at_ms), 0, None, None),
        counted(record, 0, 0),
{
    base_record(
        spec.call_id.as_str(),
        spec.domain_id.as_str(),
        spec.caller_number.as_str(),
        spec.callee_number.as_str(),
        spec.started_at_ms,
        status,
        ended_at_ms,
    )
}

/// The length in milliseconds of a number of samples.
pub open spec fn samples_ms(samples: u64) -> u64 {
    (saturated(samples * 1000) / 8000) as u64
}

/// The record of a recording whose samples were written: of one without samples,
/// that no media came; otherwise where the file is.
pub fn finished_record(
    spec: &RecordingSpec,
    file_name: &str,
    root: &str,
    path: &str,
    file_size_bytes: u64,
    caller_samples: u64,
    callee_samples: u64,
    ended_at_ms: u64,
) -> (record: RecordingRecord)
    ensures
        records_spec(record, *spec),
        counted(record, 0, 0),
        larger(caller_samples, callee_samples) == 0 ==> located(
            record,
            file_name@,
            root@,
            Seq::empty(),
            0,
        ) && concluded(
            record,
            "incomplete"@,
            Some(ended_at_ms),
            0,
            Some("no_media"@),
            Some("no supported RTP payload was recorded"@),
        ),
        larger(caller_samples, callee_samples) > 0 ==> located(
            record,
            file_name@,
            root@,
            path@,
            file_size_bytes,
        ) && concluded(
            record,
            "complete"@,
            Some(ended_at_ms),
            samples_ms(larger(caller_samples, callee_samples)),
            None,
            None,
        ),
{
    let total: u64 = if caller_samples >= callee_samples {
        caller_samples
    } else {
        callee_samples
    };
    let mut record = spec_record(spec, "complete", ended_at_ms);
    record.file_name = file_name.to_owned();
    record.storage_root = root.to_owned();
    if total == 0 {
        record.status = "incomplete".to_owned();
        record.error_code = Some("no_media".to_owned());
        record.error_message = Some("no supported RTP payload was recorded".to_owned());
    } else {
        record.storage_path = path.to_owned();
        record.file_size_bytes = file_size_bytes;
        let thousand: u64 = if total > u64::MAX / 1000 {
            u64::MAX
        } else {
            total * 1000
        };
        record.duration_ms = thousand / SAMPLE_RATE as u64;
    }
    record
}

/// The record of a recording that failed while it was written.
pub fn failed_record(
    spec: &RecordingSpec,
    file_name: &str,
    root: &str,
    message: &str,
    ended_at_ms: u64,
) -> (record: RecordingRecord)
    ensures
        records_spec(record, *spec),
        counted(record, 0, 0),
        located(record, file_name@, root@, Seq::empty(), 0),
        concluded(
            record,
            "failed"@,
            Some(ended_at_ms),
            (if ended_at_ms >= spec.started_at_ms {
                ended_at_ms - spec.started_at_ms
            } else {
                0
            }) as u64,
            Some("recording_io_error"@),
            Some(message@),
        ),
{
    let mut record = spec_record(spec, "failed", ended_at_ms);
    record.file_name = file_name.to_owned();
    record.storage_root = root.to_owned();
    record.duration_ms = ended_at_ms.saturating_sub(spec.started_at_ms);
    record.error_code = Some("recording_io_error".to_owned());
    record.error_message = Some(message.to_owned());
    record
}

/// The record of a recording whose writer went away.
pub fn panic_record(spec: &RecordingSpec, message: &str, ended_at_ms: u64) -> (record:
    RecordingRecord)
    ensures
        records_spec(record, *spec),
        counted(record, 0, 0),
        located(record, Seq::empty(), Seq::empty(), Seq::empty(), 0),
        concluded(
            record,
            "failed"@,
            Some(ended_at_ms),
            0,
            Some("recording_thread_failure"@),
            Some(message@),
        ),
{
    let mut record = spec_record(spec, "failed", ended_at_ms);
    record.error_code = Some("recording_thread_failure".to_owned());
    record.error_message = Some(message.to_owned());
    record
}

/// A recording that could not even begin.
pub fn unstarted_record(
    call_id: &str,
    domain_id: &str,
    caller_number: &str,
    callee_number: &str,
    started_at_ms: u64,
    ended_at_ms: u64,
    message: &str,
) -> (record: RecordingRecord)
    ensures
        describes(record, call_id@, domain_id@, caller_number@, callee_number@, started_at_ms),
        located(record, Seq::empty(), Seq::empty(), Seq::empty(), 0),
        counted(record, 0, 0),
        concluded(
            record,
            "failed"@,
            Some(ended_at_ms),
            0,
            Some("recording_start_failed"@),
            Some(message@),
        ),
{
    let mut record = base_record(
        call_id,
        domain_id,
        caller_number,
        callee_number,
        started_at_ms,
        "failed",
        ended_at_ms,
    );
    record.error_code = Some("recording_start_failed".to_owned());
    record.error_message = Some(message.to_owned());
    record
}

/// Enters the counts of the tap. A complete recording that lost packets is
/// incomplete.
pub fn with_tap_counts(record: RecordingRecord, tapped: u64, dropped: u64) -> (counted_record:
    RecordingRecord)
    ensures
        counted_record == (RecordingRecord {
            status: counted_record.status,
            error_code: counted_record.error_code,
            error_message: counted_record.error_message,
            packets_tapped: tapped,
            packets_dropped: dropped,
            ..record
        }),
        if dropped > 0 && record.status@ == "complete"@ {
            concluded(
                counted_record,
                "incomplete"@,
                record.ended_at_ms,
                record.duration_ms,
                Some("recording_queue_overflow"@),
                Some("recording packet queue overflowed"@),
            )
        } else {
            concluded(
                counted_record,
                record.status@,
                record.ended_at_ms,
                record.duration_ms,
                crate::text::opt_text(record.error_code),
                crate::text::opt_text(record.error_message),
            )
        },
{
    let mut record = record;
    record.packets_tapped = tapped;
    record.packets_dropped = dropped;
    let complete: String = "complete".to_owned();
    if dropped > 0 && record.status.eq(&complete) {
        record.status = "incomplete".to_owned();
        record.error_code = Some("recording_queue_overflow".to_owned());
        record.error_message = Some("recording packet queue overflowed".to_owned());
    }
    record
}

/// Why a recording is refused.
#[derive(Debug, Clone, Copy, PartialEq, Eq, Structural)]
pub enum RecordingStartError {
    UnsupportedCodec,
}

impl RecordingStartError {
    pub fn message(&self) -> (text: String)
        ensures
            text@ == "unsupported_codec: recording requires PCMU or PCMA"@,
    {
        "unsupported_codec: recording requires PCMU or PCMA".to_owned()
    }
}

/// A recording under way.
pub struct RecordingSession {
    pub spec: RecordingSpec,
    pub tap: RecordingTapSender,
    pub recorder: Recorder,
}

impl RecordingSession {
    /// Begins a recording of a call that uses PCMU or PCMA.
    pub fn start(spec: RecordingSpec, started: u64) -> (session: Result<Self, RecordingStartError>)
        ensures
            match session {
                Ok(s) => (spec.payload_types@.contains(0) || spec.payload_types@.contains(8))
                    && s.spec == spec && s.tap.wf() && s.tap.connected && s.tap.waiting().len() == 0
                    && s.tap.packets_tapped == 0 && s.tap.packets_dropped == 0
                    && s.recorder.payload_types@ == spec.payload_types@ && s.recorder.caller == (
                ChannelTimeline {
                    started,
                    samples_written: 0,
                    last_timestamp: None,
                    last_sample_count: 0,
                }) && s.recorder.callee == s.recorder.caller,
                Err(_) => !spec.payload_types@.contains(0) && !spec.payload_types@.contains(8),
            },
    {
        if !lists(&spec.payload_types, 0) && !lists(&spec.payload_types, 8) {
            return Err(RecordingStartError::UnsupportedCodec);
        }
        let payload_types = copy_range(spec.payload_types.as_slice(), 0, spec.payload_types.len());
        assert(payload_types@ =~= spec.payload_types@);
        let recorder = Recorder::new(payload_types, started);
        assert(recorder.timeline(RecordingSide::Caller) == recorder.caller);
        assert(recorder.timeline(RecordingSide::Callee) == recorder.callee);
        Ok(RecordingSession { spec, tap: RecordingTapSender::new(), recorder })
    }

    /// The record of the recording once everything was written.
    pub fn finish(
        &self,
        file_name: &str,
        root: &str,
        path: &str,
        file_size_bytes: u64,
        ended_at_ms: u64,
    ) -> (record: RecordingRecord)
        ensures
            records_spec(record, self.spec),
            counted(record, self.tap.packets_tapped, self.tap.packets_dropped),
            ({
                let total = larger(
                    self.recorder.caller.samples_written,
                    self.recorder.callee.samples_written,
                );
                if total == 0 {
                    concluded(
                        record,
                        "incomplete"@,
                        Some(ended_at_ms),
                        0,
                        Some("no_media"@),
                        Some("no supported RTP payload was recorded"@),
                    ) && located(record, file_name@, root@, Seq::empty(), 0)
                } else if self.tap.packets_dropped > 0 {
                    concluded(
                        record,
                        "incomplete"@,
                        Some(ended_at_ms),
                        samples_ms(total),
                        Some("recording_queue_overflow"@),
                        Some("recording packet queue overflowed"@),
                    ) && located(record, file_name@, root@, path@, file_size_bytes)
                } else {
                    concluded(record, "complete"@, Some(ended_at_ms), samples_ms(total), None, None)
                        && located(record, file_name@, root@, path@, file_size_bytes)
                }
            }),
    {
        let record = finished_record(
            &self.spec,
            file_name,
            root,
            path,
            file_size_bytes,
            self.recorder.caller.samples_written,
            self.recorder.callee.samples_written,
            ended_at_ms,
        );
        proof {
            reveal_strlit("incomplete");
            reveal_strlit("complete");
            assert("incomplete"@.len() == 10 && "complete"@.len() == 8);
        }
        with_tap_counts(record, self.tap.packets_tapped, self.tap.packets_dropped)
    }
}

} // verus!
