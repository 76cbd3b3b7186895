//! What holds of recordings: how samples sound, where they stand in time and in the
//! file, how the file begins, and how it is named and described.

use crate::bytes::{le32, le32_at};
use crate::recording::{
    alaw_sample, audio_of, component, concluded, decoded, describes, file_stem, interleaved, larger,
    leading_silence, located, mulaw_sample, number_component, recordable, records_spec,
    safe_char, sample_bytes, sample_or_silence, samples_bytes, samples_ms, sanitized, timestamp_delta, two_to,
    wav_data_bytes, wav_header, ChannelTimeline, Recorder, RecordingRecord, RecordingSide,
    RecordingSpec, WavError,
};
use crate::words::white_space;
use vstd::prelude::*;

verus! {

// ---------------------------------------------------------------------------
// Samples.

/// The powers of two that scale a sample.
pub proof fn lemma_powers_of_two()
    ensures
        two_to(0) == 1,
        two_to(1) == 2,
        two_to(2) == 4,
        two_to(3) == 8,
        two_to(4) == 16,
        two_to(5) == 32,
        two_to(6) == 64,
        two_to(7) == 128,
{
    reveal_with_fuel(two_to, 9);
}

/// The loudest mu-law bytes are the first of each half, and the last of each is
/// silence; from one to the other samples get quieter with every byte.
pub proof fn lemma_mulaw_gets_quieter(value: u8)
    requires
        128 <= value < 255,
    ensures
        mulaw_sample(128) == 32124,
        mulaw_sample(0) == -32124,
        mulaw_sample(255) == 0,
        mulaw_sample(127) == 0,
        0 <= mulaw_sample((value + 1) as u8) < mulaw_sample(value) <= 32124,
{
    lemma_powers_of_two();
    let v = 255 - value;
    let w = v - 1;
    let e = v / 16;
    let f = w / 16;
    assert((v / 16) % 8 == e && (w / 16) % 8 == f && 0 <= f <= e <= 7);
    let p = two_to(e as nat);
    let q = two_to(f as nat);
    let a = (v % 16) * 8 + 132;
    let b = (w % 16) * 8 + 132;
    assert(mulaw_sample(value) == a * p - 132);
    assert(mulaw_sample((value + 1) as u8) == b * q - 132);
    assert(1 <= q <= p <= 128);
    if v % 16 == 0 {
        assert(f == e - 1 && b == 252 && a == 132);
        assert(p == 2 * q);
        assert(b * q < a * p) by (nonlinear_arith)
            requires
                p == 2 * q,
                q >= 1,
                a == 132,
                b == 252,
        ;
    } else {
        assert(f == e && b == a - 8);
        assert(b * q < a * p) by (nonlinear_arith)
            requires
                p == q,
                q >= 1,
                b == a - 8,
        ;
    }
    assert(132 <= b * q) by (nonlinear_arith)
        requires
            b >= 132,
            q >= 1,
    ;
    assert(a * p <= 252 * 128) by (nonlinear_arith)
        requires
            132 <= a <= 252,
            1 <= p <= 128,
    ;
}

/// A-law bytes, with every other bit inverted, get louder with every byte of a half:
/// from a sample just above silence to the loudest.
pub proof fn lemma_alaw_gets_louder(code: u8)
    requires
        128 <= code < 255,
    ensures
        alaw_sample(128u8 ^ 0x55u8) == 8,
        alaw_sample(0u8 ^ 0x55u8) == -8,
        alaw_sample(255u8 ^ 0x55u8) == 32256,
        alaw_sample(127u8 ^ 0x55u8) == -32256,
        8 <= alaw_sample(code ^ 0x55u8) < alaw_sample(((code + 1) as u8) ^ 0x55u8) <= 32256,
{
    lemma_powers_of_two();
    let next: u8 = (code + 1) as u8;
    lemma_inverted_twice(128);
    lemma_inverted_twice(0);
    lemma_inverted_twice(255);
    lemma_inverted_twice(127);
    lemma_inverted_twice(code);
    lemma_inverted_twice(next);
    let e = (code / 16) % 8;
    let f = (next / 16) % 8;
    let a = (code % 16) * 16 + 8;
    let b = (next % 16) * 16 + 8;
    assert(0 <= e <= f <= 7);
    let p = if e == 0 {
        1
    } else {
        two_to((e - 1) as nat)
    };
    let q = if f == 0 {
        1
    } else {
        two_to((f - 1) as nat)
    };
    let x = if e == 0 {
        a
    } else {
        a + 256
    };
    let y = if f == 0 {
        b
    } else {
        b + 256
    };
    assert(1 <= p <= q <= 64);
    assert(alaw_sample(code ^ 0x55u8) == x * p);
    assert(alaw_sample(next ^ 0x55u8) == y * q);
    if code % 16 == 15 {
        assert(next % 16 == 0 && f == e + 1);
        if e == 0 {
            assert(x == 248 && p == 1 && y == 264 && q == 1);
        } else {
            assert(q == 2 * p && x == 504 && y == 264);
        }
        assert(x * p < y * q) by (nonlinear_arith)
            requires
                (x == 248 && p == 1 && y == 264 && q == 1) || (q == 2 * p && x == 504 && y == 264),
                p >= 1,
        ;
    } else {
        assert(next % 16 == code % 16 + 1 && f == e);
        assert(x * p < y * q) by (nonlinear_arith)
            requires
                p == q,
                p >= 1,
                y == x + 16,
        ;
    }
    assert(8 <= x * p) by (nonlinear_arith)
        requires
            x >= 8,
            p >= 1,
    ;
    assert(y * q <= 504 * 64) by (nonlinear_arith)
        requires
            8 <= y <= 504,
            1 <= q <= 64,
    ;
}

/// Inverting every other bit twice changes nothing.
pub proof fn lemma_inverted_twice(code: u8)
    ensures
        (code ^ 0x55u8) ^ 0x55u8 == code,
{
    assert((code ^ 0x55u8) ^ 0x55u8 == code) by (bit_vector);
}

/// Each byte of a payload is one sample: mu-law in payload type 0, A-law in the other
/// that is recorded.
pub proof fn lemma_each_byte_is_a_sample(payload: Seq<u8>, i: int)
    requires
        0 <= i < payload.len(),
    ensures
        decoded(0, payload).len() == payload.len(),
        decoded(8, payload).len() == payload.len(),
        decoded(0, payload)[i] == mulaw_sample(payload[i]),
        decoded(8, payload)[i] == alaw_sample(payload[i]),
{
    lemma_powers_of_two();
    let v = 255 - payload[i];
    let base = (v % 16) * 8 + 132;
    let power = two_to(((v / 16) % 8) as nat);
    assert(0 <= (v / 16) % 8 <= 7);
    assert(132 <= base * power <= 252 * 128) by (nonlinear_arith)
        requires
            132 <= base <= 252,
            1 <= power <= 128,
    ;
    let a = (payload[i] ^ 0x55u8) as int;
    let exponent = (a / 16) % 8;
    let step = (a % 16) * 16 + 8;
    assert(0 <= exponent <= 7);
    if exponent > 0 {
        let scale = two_to((exponent - 1) as nat);
        assert(0 <= (step + 256) * scale <= 504 * 64) by (nonlinear_arith)
            requires
                8 <= step <= 248,
                1 <= scale <= 64,
        ;
    }
}

/// A sample is written in two's complement, its lower half first.
pub proof fn lemma_sample_is_written_in_twos_complement(sample: i16)
    ensures
        sample_bytes(sample).len() == 2,
        sample >= 0 ==> sample_bytes(sample)[0] + 256 * sample_bytes(sample)[1] == sample,
        sample < 0 ==> sample_bytes(sample)[0] + 256 * sample_bytes(sample)[1] == sample + 65536,
{
}

/// The bytes of a sample stand at twice its place.
pub proof fn lemma_samples_stand_in_order(samples: Seq<i16>, i: int)
    requires
        0 <= i < samples.len(),
    ensures
        samples_bytes(samples).len() == 2 * samples.len(),
        samples_bytes(samples)[2 * i] == sample_bytes(samples[i])[0],
        samples_bytes(samples)[2 * i + 1] == sample_bytes(samples[i])[1],
    decreases samples.len(),
{
    crate::recording::lemma_samples_len(samples);
    crate::recording::lemma_samples_len(samples.drop_last());
    if i < samples.len() - 1 {
        lemma_samples_stand_in_order(samples.drop_last(), i);
    }
}

/// What a packet without padding holds is what follows its header.
pub proof fn lemma_audio_follows_the_header(p: Seq<u8>)
    requires
        p.len() >= 12,
        p[0] == 128,
    ensures
        audio_of(p) matches Some(audio) && audio.payload == p.skip(12) && audio.payload_type == p[1]
            % 128 && audio.timestamp == 16777216 * p[4] + 65536 * p[5] + 256 * p[6] + p[7],
{
    assert(p.subrange(12, p.len() as int) =~= p.skip(12));
}

/// Only the two G.711 types are recorded, and of those the ones that were agreed on.
pub proof fn lemma_what_is_recorded(payload_types: Seq<u8>, payload_type: u8)
    ensures
        recordable(payload_types, payload_type) <==> payload_types.contains(payload_type) && (
        payload_type == 0 || payload_type == 8),
{
}

// ---------------------------------------------------------------------------
// Time.

/// The distance between two timestamps leads from one to the other, round the clock
/// where it has to.
pub proof fn lemma_distance_leads_to_the_timestamp(timestamp: u32, last: u32)
    ensures
        0 <= timestamp_delta(timestamp, last) < 0x1_0000_0000,
        (last + timestamp_delta(timestamp, last)) % 0x1_0000_0000 == timestamp,
{
}

/// Before the first packet there is silence for as long as it took to come: eight
/// samples to the whole millisecond.
pub proof fn lemma_silence_before_the_first_packet(started: u64, milliseconds: u64, rest: u64)
    requires
        milliseconds <= 500_000_000,
        rest < 1_000_000,
        started + milliseconds * 1_000_000 + rest <= u64::MAX,
    ensures
        leading_silence(started, (started + milliseconds * 1_000_000 + rest) as u64) == 8
            * milliseconds,
        leading_silence(started, started) == 0,
{
}

/// A packet that came before the recording began has no silence before it.
pub proof fn lemma_no_silence_before_the_start(started: u64, observed_at: u64)
    requires
        observed_at <= started,
    ensures
        leading_silence(started, observed_at) == 0,
{
}

/// A gap between packets of up to five seconds is filled with silence, a longer one
/// is not; what overlaps the packet before is left out, and nothing more.
pub proof fn lemma_gaps_are_filled_and_overlaps_left_out(
    channel: ChannelTimeline,
    last: u32,
    timestamp: u32,
    count: nat,
    at: u64,
)
    requires
        channel.last_timestamp == Some(last),
        count <= usize::MAX,
    ensures
        ({
            let place = channel.placement(timestamp, count, at);
            let gap = timestamp_delta(timestamp, last) - channel.last_sample_count;
            &&& 0 <= gap <= 40_000 ==> place.silence == gap && place.skip == 0
            &&& gap > 40_000 ==> place.silence == 0 && place.skip == 0
            &&& gap < 0 && -gap <= count ==> place.silence == 0 && place.skip == -gap
            &&& gap < 0 && -gap > count ==> place.silence == 0 && place.skip == count
        }),
{
}

/// The first packet of a channel is written whole, behind its silence.
pub proof fn lemma_first_packet_is_written_whole(
    channel: ChannelTimeline,
    timestamp: u32,
    count: nat,
    at: u64,
)
    requires
        channel.last_timestamp is None,
    ensures
        channel.placement(timestamp, count, at).skip == 0,
        channel.placement(timestamp, count, at).silence == leading_silence(channel.started, at),
{
}

/// A channel remembers its last packet, and has grown by the silence and by what was
/// not left out.
pub proof fn lemma_channel_advances(
    channel: ChannelTimeline,
    timestamp: u32,
    count: usize,
    at: u64,
)
    ensures
        ({
            let after = channel.advanced(timestamp, count, at);
            let place = channel.placement(timestamp, count as nat, at);
            &&& after.last_timestamp == Some(timestamp)
            &&& after.last_sample_count == count
            &&& after.started == channel.started
            &&& channel.samples_written + place.silence + count <= u64::MAX
                ==> after.samples_written == channel.samples_written + place.silence + count
                - place.skip
        }),
{
}

/// Each side has a channel of its own.
pub proof fn lemma_sides_have_their_channels(recorder: Recorder)
    ensures
        recorder.timeline(RecordingSide::Caller) == recorder.caller,
        recorder.timeline(RecordingSide::Callee) == recorder.callee,
{
}

/// Eight samples are a millisecond.
pub proof fn lemma_length_of_samples(samples: u64)
    requires
        samples <= 18_446_744_073_709_551,
    ensures
        samples_ms(samples) == samples / 8,
{
}

// ---------------------------------------------------------------------------
// The file.

/// A frame of both channels is four bytes, and the file with its header has to fit
/// in 32 bits.
pub proof fn lemma_size_of_the_data(total: u64)
    ensures
        total <= 1_073_741_814 ==> wav_data_bytes(total) == Ok::<u32, WavError>((4 * total) as u32),
        1_073_741_814 < total <= 4_611_686_018_427_387_903 ==> wav_data_bytes(total) == Err::<u32, _>(
            WavError::ExceedsRiffLimit,
        ),
        total > 4_611_686_018_427_387_903 ==> wav_data_bytes(total) == Err::<u32, _>(
            WavError::SizeOverflow,
        ),
{
}

/// What a reader of the file finds in its first 44 bytes: the marks of the format,
/// plain samples in two channels, 8000 of them a second at two bytes each, and the
/// sizes of what follows.
pub proof fn lemma_header_describes_the_file(data_bytes: u32)
    requires
        data_bytes <= u32::MAX - 36,
    ensures
        ({
            let h = wav_header(data_bytes);
            &&& h.len() == 44
            &&& h.subrange(0, 4) == seq![82u8, 73, 70, 70]
            &&& le32_at(h, 4) == 36 + data_bytes
            &&& h.subrange(8, 16) == seq![87u8, 65, 86, 69, 102, 109, 116, 32]
            &&& le32_at(h, 16) == 16
            &&& h[20] + 256 * h[21] == 1
            &&& h[22] + 256 * h[23] == 2
            &&& le32_at(h, 24) == 8000
            &&& le32_at(h, 28) == 8000 * 2 * 2
            &&& h[32] + 256 * h[33] == 4
            &&& h[34] + 256 * h[35] == 16
            &&& h.subrange(36, 40) == seq![100u8, 97, 116, 97]
            &&& le32_at(h, 40) == data_bytes
        }),
{
    let h = wav_header(data_bytes);
    assert(h.len() == 44);
    assert(h.subrange(0, 4) =~= seq![82u8, 73, 70, 70]);
    assert(h.subrange(4, 8) =~= le32((36 + data_bytes) as u32));
    assert(h.subrange(8, 16) =~= seq![87u8, 65, 86, 69, 102, 109, 116, 32]);
    assert(h.subrange(16, 20) =~= le32(16));
    assert(h.subrange(24, 28) =~= le32(8000));
    assert(h.subrange(28, 32) =~= le32(32000));
    assert(h.subrange(36, 40) =~= seq![100u8, 97, 116, 97]);
    assert(h.subrange(40, 44) =~= le32(data_bytes));
    crate::bytes::lemma_le32_reads_back((36 + data_bytes) as u32, h, 4);
    crate::bytes::lemma_le32_reads_back(16, h, 16);
    crate::bytes::lemma_le32_reads_back(8000, h, 24);
    crate::bytes::lemma_le32_reads_back(32000, h, 28);
    crate::bytes::lemma_le32_reads_back(data_bytes, h, 40);
}

/// Whether the frame at a place holds this sample of the caller and this of the
/// callee: their two bytes each, or silence behind the end of a side.
pub open spec fn frame_holds(all: Seq<u8>, caller: Seq<u8>, callee: Seq<u8>, index: int) -> bool {
    &&& 2 * index + 2 <= caller.len() ==> all[4 * index] == caller[2 * index] && all[4 * index + 1]
        == caller[2 * index + 1]
    &&& 2 * index + 2 > caller.len() ==> all[4 * index] == 0 && all[4 * index + 1] == 0
    &&& 2 * index + 2 <= callee.len() ==> all[4 * index + 2] == callee[2 * index] && all[4 * index
        + 3] == callee[2 * index + 1]
    &&& 2 * index + 2 > callee.len() ==> all[4 * index + 2] == 0 && all[4 * index + 3] == 0
}

/// A frame holds the caller's sample and then the callee's; a side that has ended is
/// silent.
pub proof fn lemma_frame_holds_both_sides(
    caller: Seq<u8>,
    callee: Seq<u8>,
    total: nat,
    index: int,
)
    requires
        0 <= index < total,
    ensures
        interleaved(caller, callee, total).len() == 4 * total,
        frame_holds(interleaved(caller, callee, total), caller, callee, index),
{
    crate::recording::lemma_interleaved_len(caller, callee, total);
    crate::recording::lemma_interleaved_channels(caller, callee, total, index);
    lemma_frame_of_halves(interleaved(caller, callee, total), caller, callee, index);
}

proof fn lemma_frame_of_halves(all: Seq<u8>, caller: Seq<u8>, callee: Seq<u8>, index: int)
    requires
        0 <= index,
        4 * index + 4 <= all.len(),
        all.subrange(4 * index, 4 * index + 2) == sample_or_silence(caller, index),
        all.subrange(4 * index + 2, 4 * index + 4) == sample_or_silence(callee, index),
    ensures
        frame_holds(all, caller, callee, index),
{
    let left = all.subrange(4 * index, 4 * index + 2);
    let right = all.subrange(4 * index + 2, 4 * index + 4);
    assert(left[0] == all[4 * index] && left[1] == all[4 * index + 1]);
    assert(right[0] == all[4 * index + 2] && right[1] == all[4 * index + 3]);
}

/// The longer side decides how long the file is.
pub proof fn lemma_longer_side_decides(a: u64, b: u64)
    ensures
        larger(a, b) >= a,
        larger(a, b) >= b,
        larger(a, b) == a || larger(a, b) == b,
{
}

// ---------------------------------------------------------------------------
// Names.

/// A name keeps its letters, digits, dots, underscores and hyphens where they stand,
/// and has an underscore for anything else.
pub proof fn lemma_name_keeps_what_is_safe(s: Seq<char>, i: int)
    requires
        0 <= i < s.len(),
    ensures
        sanitized(s).len() == s.len(),
        safe_char(s[i]) ==> sanitized(s)[i] == s[i],
        !safe_char(s[i]) ==> sanitized(s)[i] == '_',
        component(s) == sanitized(s) || component(s) == "unknown"@,
        s.len() > 2 ==> component(s) == sanitized(s),
{
}

/// Which characters are safe in a name.
pub proof fn lemma_safe_characters(c: char)
    ensures
        'a' <= c && c <= 'z' ==> safe_char(c),
        'A' <= c && c <= 'Z' ==> safe_char(c),
        '0' <= c && c <= '9' ==> safe_char(c),
        safe_char('.') && safe_char('_') && safe_char('-'),
        !safe_char('/') && !safe_char('\\') && !safe_char(' ') && !safe_char(':') && !safe_char('+'),
        safe_char(c) ==> ('a' <= c && c <= 'z') || ('A' <= c && c <= 'Z') || ('0' <= c && c <= '9')
            || c == '.' || c == '_' || c == '-',
{
}

/// A number of nothing but blanks is unknown; another is cleaned as a name is.
pub proof fn lemma_blank_number_is_unknown(s: Seq<char>, i: int)
    ensures
        number_component(Seq::<char>::empty()) == "unknown"@,
        0 <= i < s.len() && !white_space(s[i]) ==> number_component(s) == component(s),
        (forall|k: int| 0 <= k < s.len() ==> white_space(#[trigger] s[k])) ==> number_component(s)
            == "unknown"@,
{
}

/// A file is named after the beginning, the caller, the callee and the call, in that
/// order.
pub proof fn lemma_file_is_named_after_the_call(
    stamp: Seq<char>,
    caller: Seq<char>,
    callee: Seq<char>,
    call: Seq<char>,
)
    ensures
        file_stem(stamp, caller, callee, call) == stamp + "_"@ + number_component(caller) + "_"@
            + number_component(callee) + "_"@ + component(call),
        stamp.is_prefix_of(file_stem(stamp, caller, callee, call)),
{
    assert(file_stem(stamp, caller, callee, call).take(stamp.len() as int) =~= stamp);
}

// ---------------------------------------------------------------------------
// Records.

/// What a record says of its call.
pub proof fn lemma_record_describes_its_call(
    record: RecordingRecord,
    call: Seq<char>,
    domain: Seq<char>,
    caller: Seq<char>,
    callee: Seq<char>,
    started_at_ms: u64,
)
    requires
        describes(record, call, domain, caller, callee, started_at_ms),
    ensures
        record.recording_id@ == "recording-"@ + call,
        record.call_id@ == call,
        record.domain_id@ == domain,
        record.caller_number@ == caller,
        record.callee_number@ == callee,
        record.started_at_ms == started_at_ms,
        record.format@ == "wav"@,
        record.sample_rate == 8000,
        record.channel_count == 2,
{
}

/// What a record says of where the recording is and how it ended.
pub proof fn lemma_record_says_where_and_how(
    record: RecordingRecord,
    file_name: Seq<char>,
    root: Seq<char>,
    path: Seq<char>,
    size: u64,
    status: Seq<char>,
    ended_at_ms: Option<u64>,
    duration_ms: u64,
    error_code: Option<Seq<char>>,
    error_message: Option<Seq<char>>,
)
    requires
        located(record, file_name, root, path, size),
        concluded(record, status, ended_at_ms, duration_ms, error_code, error_message),
    ensures
        record.file_name@ == file_name,
        record.storage_root@ == root,
        record.storage_path@ == path,
        record.file_size_bytes == size,
        record.status@ == status,
        record.ended_at_ms == ended_at_ms,
        record.duration_ms == duration_ms,
        error_code matches Some(code) ==> (record.error_code matches Some(text) && text@ == code),
        error_code is None ==> record.error_code is None,
        error_message matches Some(message) ==> (record.error_message matches Some(text) && text@
            == message),
        error_message is None ==> record.error_message is None,
{
}

/// The record of a recording names what the recording was started with.
pub proof fn lemma_record_names_what_was_started(record: RecordingRecord, spec: RecordingSpec)
    requires
        records_spec(record, spec),
    ensures
        record.call_id@ == spec.call_id@,
        record.domain_id@ == spec.domain_id@,
        record.caller_number@ == spec.caller_number@,
        record.callee_number@ == spec.callee_number@,
        record.started_at_ms == spec.started_at_ms,
{
}

} // verus!
