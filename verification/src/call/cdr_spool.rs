//! The durable spool of call records. Records are kept in segment files as frames:
//! the length of the payload, its checksum, and the payload. What was appended
//! comes back on replay; what was only half written never does.

use crate::bytes::{le32, le32_at, lemma_le32_reads_back, push_le32, push_range, read_le32};
use crate::text::{
    all_digits, begins_with, chars_of, decimal, decimal_text, digits_value, ends_with, join2, join3,
    join4, lemma_decimal_digits, parse_u64, parsed_u64, slice_of, stands_at,
};
use vstd::prelude::*;

verus! {

pub const SPOOL_SCHEMA_VERSION: u16 = 1;

/// A segment that holds something takes no frame that would make it longer.
pub const SEGMENT_SIZE_LIMIT: u64 = 16_777_216;

pub const MAX_FRAME_SIZE: usize = 67_108_864;

pub const FRAME_HEADER_SIZE: usize = 8;

/// The checksum of `crc32fast::hash`.
pub uninterp spec fn crc32_of(bytes: Seq<u8>) -> u32;

/// `crc32fast::hash` computes the CRC-32 of a byte slice, which depends on the
/// bytes alone. Nothing is said of which bytes share a checksum.
#[verifier::external_body]
fn crc32(bytes: &[u8]) -> (checksum: u32)
    ensures
        checksum == crc32_of(bytes@),
{
    crc32fast::hash(bytes)
}

/// A place in the spool: behind `offset` bytes of a segment.
#[derive(Debug, Clone, Copy, PartialEq, Eq, Structural)]
pub struct SpoolPosition {
    pub segment: u64,
    pub offset: u64,
}

impl SpoolPosition {
    pub open spec fn before(self, other: Self) -> bool {
        self.segment < other.segment || (self.segment == other.segment && self.offset
            < other.offset)
    }

    pub fn is_before(self, other: Self) -> (before: bool)
        ensures
            before == self.before(other),
    {
        self.segment < other.segment || (self.segment == other.segment && self.offset
            < other.offset)
    }
}

/// A payload as it stands in a segment.
pub open spec fn frame(payload: Seq<u8>) -> Seq<u8> {
    le32(payload.len() as u32) + le32(crc32_of(payload)) + payload
}

#[derive(Debug, Clone, Copy, PartialEq, Eq, Structural)]
pub enum SpoolError {
    FrameTooLarge(usize),
    /// The checkpoint, the segment it is in, and the length of that segment.
    CheckpointOutOfRange(u64, u64, usize),
    CheckpointMovesBackwards,
}

impl SpoolError {
    pub open spec fn message(self) -> Seq<char> {
        match self {
            SpoolError::FrameTooLarge(size) => "CDR spool frame exceeds maximum size: "@ + decimal(
                size as nat,
            ),
            SpoolError::CheckpointOutOfRange(offset, segment, length) =>
                "CDR spool checkpoint "@ + decimal(offset as nat) + " exceeds segment "@ + decimal(
                segment as nat,
            ) + " length "@ + decimal(length as nat),
            SpoolError::CheckpointMovesBackwards =>
                "CDR spool checkpoint cannot move backwards"@,
        }
    }

    pub fn text(self) -> (text: String)
        ensures
            text@ == self.message(),
    {
        match self {
            SpoolError::FrameTooLarge(size) => join2(
                "CDR spool frame exceeds maximum size: ",
                decimal_text(size as u64).as_str(),
            ),
            SpoolError::CheckpointOutOfRange(offset, segment, length) => {
                let front = join4(
                    "CDR spool checkpoint ",
                    decimal_text(offset).as_str(),
                    " exceeds segment ",
                    decimal_text(segment).as_str(),
                );
                join3(front.as_str(), " length ", decimal_text(length as u64).as_str())
            },
            SpoolError::CheckpointMovesBackwards =>
                "CDR spool checkpoint cannot move backwards".to_owned(),
        }
    }
}

/// The frame of a payload.
pub fn encode_frame(payload: &[u8]) -> (result: Result<Vec<u8>, SpoolError>)
    ensures
        match result {
            Ok(bytes) => payload@.len() <= MAX_FRAME_SIZE && bytes@ == frame(payload@),
            Err(error) => payload@.len() > MAX_FRAME_SIZE && error == SpoolError::FrameTooLarge(
                payload.len(),
            ),
        },
{
    if payload.len() > MAX_FRAME_SIZE {
        return Err(SpoolError::FrameTooLarge(payload.len()));
    }
    let mut bytes: Vec<u8> = Vec::new();
    push_le32(&mut bytes, payload.len() as u32);
    push_le32(&mut bytes, crc32(payload));
    push_range(&mut bytes, payload, 0, payload.len());
    assert(payload@.subrange(0, payload@.len() as int) =~= payload@);
    assert(bytes@ =~= frame(payload@));
    Ok(bytes)
}

/// Where a frame of the given size is appended, and where the spool then ends.
/// `last` is the number and the length of the last segment.
pub open spec fn append_place(
    last: Option<(u64, u64)>,
    checkpoint: SpoolPosition,
    size: nat,
) -> SpoolPosition {
    match last {
        None => SpoolPosition {
            segment: if checkpoint.segment < u64::MAX {
                (checkpoint.segment + 1) as u64
            } else {
                u64::MAX
            },
            offset: 0,
        },
        Some((segment, length)) => if length > 0 && length + size > SEGMENT_SIZE_LIMIT {
            SpoolPosition {
                segment: if segment < u64::MAX {
                    (segment + 1) as u64
                } else {
                    u64::MAX
                },
                offset: 0,
            }
        } else {
            SpoolPosition { segment, offset: length }
        },
    }
}

pub fn place_frame(last: Option<(u64, u64)>, checkpoint: SpoolPosition, size: usize) -> (place:
    SpoolPosition)
    ensures
        place == append_place(last, checkpoint, size as nat),
{
    match last {
        None => SpoolPosition { segment: checkpoint.segment.saturating_add(1), offset: 0 },
        Some((segment, length)) => {
            if length > 0 && (length > SEGMENT_SIZE_LIMIT || size as u64 > SEGMENT_SIZE_LIMIT
                - length) {
                SpoolPosition { segment: segment.saturating_add(1), offset: 0 }
            } else {
                SpoolPosition { segment, offset: length }
            }
        },
    }
}

/// The position behind a frame of the given size that stands at `place`.
pub open spec fn frame_end(place: SpoolPosition, size: nat) -> SpoolPosition {
    SpoolPosition {
        segment: place.segment,
        offset: if place.offset + size <= u64::MAX {
            (place.offset + size) as u64
        } else {
            u64::MAX
        },
    }
}

/// The position behind a frame that was appended.
pub fn end_of_frame(place: SpoolPosition, size: usize) -> (end: SpoolPosition)
    ensures
        end == frame_end(place, size as nat),
{
    SpoolPosition { segment: place.segment, offset: place.offset.saturating_add(size as u64) }
}

/// A frame behind another one never makes a segment longer than the limit.
pub proof fn lemma_segments_stay_within_limit(
    last: Option<(u64, u64)>,
    checkpoint: SpoolPosition,
    size: nat,
)
    ensures
        append_place(last, checkpoint, size).offset > 0 ==> append_place(
            last,
            checkpoint,
            size,
        ).offset + size <= SEGMENT_SIZE_LIMIT,
{
}

/// A frame found in a segment, from its first byte to behind its last, and whether
/// its checksum is right.
#[derive(Debug, Clone, Copy, PartialEq, Eq, Structural)]
pub struct FrameSpan {
    pub start: usize,
    pub end: usize,
    pub intact: bool,
}

/// What comes behind the last whole frame of a segment.
#[derive(Debug, Clone, Copy, PartialEq, Eq, Structural)]
pub enum SegmentTail {
    Clean,
    /// Less than a frame, from here on.
    Incomplete(usize),
    /// A length that no frame has, here.
    Oversized(usize),
}

/// The payload of a frame.
pub open spec fn payload_of(bytes: Seq<u8>, span: FrameSpan) -> Seq<u8> {
    bytes.subrange(span.start + FRAME_HEADER_SIZE, span.end as int)
}

/// The frames of a segment from `at` on, and what comes behind them.
pub open spec fn scan(bytes: Seq<u8>, at: nat) -> (Seq<FrameSpan>, SegmentTail)
    decreases bytes.len() - at,
{
    if at >= bytes.len() {
        (Seq::empty(), SegmentTail::Clean)
    } else if bytes.len() - at < FRAME_HEADER_SIZE {
        (Seq::empty(), SegmentTail::Incomplete(at as usize))
    } else {
        let length = le32_at(bytes, at as int);
        if length > MAX_FRAME_SIZE {
            (Seq::empty(), SegmentTail::Oversized(at as usize))
        } else if bytes.len() - at - FRAME_HEADER_SIZE < length {
            (Seq::empty(), SegmentTail::Incomplete(at as usize))
        } else {
            let end = (at + FRAME_HEADER_SIZE + length) as nat;
            let span = FrameSpan {
                start: at as usize,
                end: end as usize,
                intact: crc32_of(bytes.subrange(at + FRAME_HEADER_SIZE, end as int)) == le32_at(
                    bytes,
                    at as int + 4,
                ),
            };
            let rest = scan(bytes, end);
            (seq![span] + rest.0, rest.1)
        }
    }
}

pub struct SegmentScan {
    pub frames: Vec<FrameSpan>,
    pub tail: SegmentTail,
}

/// Finds the frames of a segment.
pub fn scan_segment(bytes: &[u8], from: usize) -> (found: SegmentScan)
    requires
        from <= bytes.len(),
    ensures
        (found.frames@, found.tail) == scan(bytes@, from as nat),
{
    let mut frames: Vec<FrameSpan> = Vec::new();
    let mut offset: usize = from;
    let ghost whole = scan(bytes@, from as nat);
    assert(whole.0 =~= frames@ + whole.0);
    while offset < bytes.len()
        invariant
            offset <= bytes.len(),
            whole == scan(bytes@, from as nat),
            whole.0 == frames@ + scan(bytes@, offset as nat).0,
            whole.1 == scan(bytes@, offset as nat).1,
        decreases bytes.len() - offset,
    {
        let frame_start: usize = offset;
        if bytes.len() - offset < FRAME_HEADER_SIZE {
            assert(frames@ + Seq::<FrameSpan>::empty() =~= frames@);
            return SegmentScan { frames, tail: SegmentTail::Incomplete(frame_start) };
        }
        let length: usize = read_le32(bytes, offset) as usize;
        let expected: u32 = read_le32(bytes, offset + 4);
        if length > MAX_FRAME_SIZE {
            assert(frames@ + Seq::<FrameSpan>::empty() =~= frames@);
            return SegmentScan { frames, tail: SegmentTail::Oversized(frame_start) };
        }
        if bytes.len() - offset - FRAME_HEADER_SIZE < length {
            assert(frames@ + Seq::<FrameSpan>::empty() =~= frames@);
            return SegmentScan { frames, tail: SegmentTail::Incomplete(frame_start) };
        }
        let end: usize = offset + FRAME_HEADER_SIZE + length;
        let payload = crate::bytes::copy_range(bytes, offset + FRAME_HEADER_SIZE, end);
        let intact = crc32(payload.as_slice()) == expected;
        let ghost before = frames@;
        frames.push(FrameSpan { start: frame_start, end, intact });
        offset = end;
        proof {
            let span = frames@[before.len() as int];
            let rest = scan(bytes@, end as nat).0;
            assert(scan(bytes@, frame_start as nat).0 == seq![span] + rest);
            assert(before + (seq![span] + rest) =~= frames@ + rest);
        }
    }
    assert(frames@ + Seq::<FrameSpan>::empty() =~= frames@);
    SegmentScan { frames, tail: SegmentTail::Clean }
}

/// The bytes of a segment to which these payloads were appended in turn.
pub open spec fn written(payloads: Seq<Seq<u8>>) -> Seq<u8>
    decreases payloads.len(),
{
    if payloads.len() == 0 {
        Seq::empty()
    } else {
        frame(payloads[0]) + written(payloads.drop_first())
    }
}

/// Where the frames of these payloads stand, the first of them at `at`.
pub open spec fn spans(payloads: Seq<Seq<u8>>, at: nat) -> Seq<FrameSpan>
    decreases payloads.len(),
{
    if payloads.len() == 0 {
        Seq::empty()
    } else {
        let end = (at + FRAME_HEADER_SIZE + payloads[0].len()) as nat;
        seq![FrameSpan { start: at as usize, end: end as usize, intact: true }] + spans(
            payloads.drop_first(),
            end,
        )
    }
}

/// Whether every payload fits in a frame.
pub open spec fn all_fit(payloads: Seq<Seq<u8>>) -> bool {
    forall|i: int| 0 <= i < payloads.len() ==> (#[trigger] payloads[i]).len() <= MAX_FRAME_SIZE
}

proof fn lemma_frame_at(bytes: Seq<u8>, at: nat, payload: Seq<u8>)
    requires
        payload.len() <= MAX_FRAME_SIZE,
        at + FRAME_HEADER_SIZE + payload.len() <= bytes.len(),
        bytes.subrange(at as int, at + FRAME_HEADER_SIZE + payload.len()) == frame(payload),
    ensures
        le32_at(bytes, at as int) == payload.len(),
        le32_at(bytes, at as int + 4) == crc32_of(payload),
        bytes.subrange(at + FRAME_HEADER_SIZE, at + FRAME_HEADER_SIZE + payload.len()) == payload,
{
    let part = bytes.subrange(at as int, at + FRAME_HEADER_SIZE + payload.len());
    assert(bytes.subrange(at as int, at as int + 4) =~= le32(payload.len() as u32)) by {
        assert(part.subrange(0, 4) =~= le32(payload.len() as u32));
        assert(part.subrange(0, 4) =~= bytes.subrange(at as int, at as int + 4));
    }
    lemma_le32_reads_back(payload.len() as u32, bytes, at as int);
    assert(bytes.subrange(at as int + 4, at as int + 8) =~= le32(crc32_of(payload))) by {
        assert(part.subrange(4, 8) =~= le32(crc32_of(payload)));
        assert(part.subrange(4, 8) =~= bytes.subrange(at as int + 4, at as int + 8));
    }
    lemma_le32_reads_back(crc32_of(payload), bytes, at as int + 4);
    assert(bytes.subrange(at + FRAME_HEADER_SIZE, at + FRAME_HEADER_SIZE + payload.len())
        =~= payload) by {
        assert(part.subrange(8, 8 + payload.len() as int) =~= payload);
        assert(part.subrange(8, 8 + payload.len() as int) =~= bytes.subrange(
            at + FRAME_HEADER_SIZE,
            at + FRAME_HEADER_SIZE + payload.len(),
        ));
    }
}

proof fn lemma_scan_step(bytes: Seq<u8>, at: nat, payload: Seq<u8>)
    requires
        payload.len() <= MAX_FRAME_SIZE,
        at + FRAME_HEADER_SIZE + payload.len() <= bytes.len(),
        bytes.len() <= usize::MAX,
        bytes.subrange(at as int, at + FRAME_HEADER_SIZE + payload.len()) == frame(payload),
    ensures
        ({
            let end = (at + FRAME_HEADER_SIZE + payload.len()) as nat;
            scan(bytes, at) == (
                seq![FrameSpan { start: at as usize, end: end as usize, intact: true }] + scan(
                    bytes,
                    end,
                ).0,
                scan(bytes, end).1,
            )
        }),
{
    lemma_frame_at(bytes, at, payload);
}

/// The frames that were written come first in a scan, all intact, and the scan goes
/// on behind them.
#[verifier::rlimit(40)]
pub proof fn lemma_scan_finds_written(
    front: Seq<u8>,
    payloads: Seq<Seq<u8>>,
    behind: Seq<u8>,
)
    requires
        all_fit(payloads),
        front.len() + written(payloads).len() + behind.len() <= usize::MAX,
    ensures
        ({
            let bytes = front + written(payloads) + behind;
            let rest = scan(bytes, front.len() + written(payloads).len());
            &&& scan(bytes, front.len()).0 == spans(payloads, front.len()) + rest.0
            &&& scan(bytes, front.len()).1 == rest.1
        }),
    decreases payloads.len(),
{
    let bytes = front + written(payloads) + behind;
    if payloads.len() == 0 {
        assert(front + Seq::<u8>::empty() =~= front);
        assert(spans(payloads, front.len()) + scan(bytes, front.len()).0 =~= scan(
            bytes,
            front.len(),
        ).0);
    } else {
        let first = payloads[0];
        let others = payloads.drop_first();
        let next = front + frame(first);
        assert(frame(first).len() == FRAME_HEADER_SIZE + first.len());
        assert(all_fit(others)) by {
            assert forall|i: int| 0 <= i < others.len() implies (#[trigger] others[i]).len()
                <= MAX_FRAME_SIZE by {
                assert(others[i] == payloads[i + 1]);
            }
        }
        assert(next + written(others) + behind =~= bytes);
        lemma_scan_finds_written(next, others, behind);
        assert(bytes.subrange(front.len() as int, front.len() + FRAME_HEADER_SIZE + first.len())
            =~= frame(first));
        lemma_scan_step(bytes, front.len(), first);
        let span = FrameSpan {
            start: front.len() as usize,
            end: next.len() as usize,
            intact: true,
        };
        let rest = scan(bytes, front.len() + written(payloads).len());
        assert(next.len() + written(others).len() == front.len() + written(payloads).len());
        assert(spans(payloads, front.len()) == seq![span] + spans(others, next.len()));
        assert(seq![span] + (spans(others, next.len()) + rest.0) =~= spans(payloads, front.len())
            + rest.0);
    }
}

/// What was appended comes back: a segment holds exactly the frames that were
/// written to it, each with the payload it was written with.
pub proof fn lemma_replay_gives_back_what_was_written(payloads: Seq<Seq<u8>>)
    requires
        all_fit(payloads),
        written(payloads).len() <= usize::MAX,
    ensures
        scan(written(payloads), 0) == (spans(payloads, 0), SegmentTail::Clean),
        spans(payloads, 0).len() == payloads.len(),
        forall|i: int|
            0 <= i < payloads.len() ==> payload_of(
                written(payloads),
                #[trigger] spans(payloads, 0)[i],
            ) == payloads[i],
{
    lemma_scan_finds_written(Seq::empty(), payloads, Seq::empty());
    assert(Seq::<u8>::empty() + written(payloads) + Seq::empty() =~= written(payloads));
    assert(spans(payloads, 0) + Seq::<FrameSpan>::empty() =~= spans(payloads, 0));
    lemma_spans_hold_payloads(Seq::empty(), payloads);
    assert(Seq::<u8>::empty() + written(payloads) =~= written(payloads));
}

pub(crate) proof fn lemma_spans_hold_payloads(front: Seq<u8>, payloads: Seq<Seq<u8>>)
    requires
        front.len() + written(payloads).len() <= usize::MAX,
    ensures
        spans(payloads, front.len()).len() == payloads.len(),
        forall|i: int|
            0 <= i < payloads.len() ==> payload_of(
                front + written(payloads),
                #[trigger] spans(payloads, front.len())[i],
            ) == payloads[i],
    decreases payloads.len(),
{
    if payloads.len() > 0 {
        let first = payloads[0];
        let others = payloads.drop_first();
        let next = front + frame(first);
        let bytes = front + written(payloads);
        assert(next + written(others) =~= bytes);
        lemma_spans_hold_payloads(next, others);
        assert(payload_of(bytes, spans(payloads, front.len())[0]) =~= first);
        assert forall|i: int| 0 <= i < payloads.len() implies payload_of(
            bytes,
            #[trigger] spans(payloads, front.len())[i],
        ) == payloads[i] by {
            if i > 0 {
                assert(spans(payloads, front.len())[i] == spans(others, next.len())[i - 1]);
                assert(others[i - 1] == payloads[i]);
            }
        }
    }
}

/// A frame that was only half written is never replayed: everything before it comes
/// back, and the segment is cut where it begins.
pub proof fn lemma_half_written_frame_is_never_replayed(
    payloads: Seq<Seq<u8>>,
    last: Seq<u8>,
    kept: nat,
)
    requires
        all_fit(payloads),
        last.len() <= MAX_FRAME_SIZE,
        0 < kept < frame(last).len(),
        written(payloads).len() + kept <= usize::MAX,
    ensures
        scan(written(payloads) + frame(last).take(kept as int), 0) == (
            spans(payloads, 0),
            SegmentTail::Incomplete(written(payloads).len() as usize),
        ),
{
    let behind = frame(last).take(kept as int);
    let front = written(payloads);
    let bytes = front + behind;
    lemma_scan_finds_written(Seq::empty(), payloads, behind);
    assert(Seq::<u8>::empty() + written(payloads) + behind =~= bytes);
    let at = front.len();
    if kept >= FRAME_HEADER_SIZE {
        assert(bytes.subrange(at as int, at as int + 4) =~= le32(last.len() as u32)) by {
            assert(frame(last).subrange(0, 4) =~= le32(last.len() as u32));
            assert(frame(last).subrange(0, 4) =~= bytes.subrange(at as int, at as int + 4));
        }
        lemma_le32_reads_back(last.len() as u32, bytes, at as int);
    }
    assert(spans(payloads, 0) + Seq::<FrameSpan>::empty() =~= spans(payloads, 0));
}

/// A segment as it was read.
pub struct SegmentBytes {
    pub number: u64,
    pub bytes: Vec<u8>,
}

/// A frame that is to be replayed.
#[derive(Debug, Clone, Copy, PartialEq, Eq, Structural)]
pub struct ReplayFrame {
    pub segment: u64,
    pub span: FrameSpan,
}

impl ReplayFrame {
    pub open spec fn behind_it(self) -> SpoolPosition {
        SpoolPosition { segment: self.segment, offset: self.span.end as u64 }
    }

    pub fn end(&self) -> (end: SpoolPosition)
        ensures
            end == self.behind_it(),
    {
        SpoolPosition { segment: self.segment, offset: self.span.end as u64 }
    }
}

/// A segment that has to be cut at `at`. What is cut off is put aside, unless it is
/// the end of the last segment.
#[derive(Debug, Clone, Copy, PartialEq, Eq, Structural)]
pub struct SegmentRepair {
    pub segment: u64,
    pub at: usize,
    pub quarantine: Option<QuarantineReason>,
}

#[derive(Debug, Clone, Copy, PartialEq, Eq, Structural)]
pub enum QuarantineReason {
    FrameTooLong,
    IncompleteInClosedSegment,
}

impl QuarantineReason {
    pub open spec fn code(self) -> Seq<char> {
        match self {
            QuarantineReason::FrameTooLong => "frame length exceeds maximum"@,
            QuarantineReason::IncompleteInClosedSegment => "incomplete frame in closed segment"@,
        }
    }

    pub fn text(self) -> (text: String)
        ensures
            text@ == self.code(),
    {
        match self {
            QuarantineReason::FrameTooLong => "frame length exceeds maximum".to_owned(),
            QuarantineReason::IncompleteInClosedSegment =>
                "incomplete frame in closed segment".to_owned(),
        }
    }
}

#[verifier::ext_equal]
pub struct ReplayState {
    pub frames: Seq<ReplayFrame>,
    pub repairs: Seq<SegmentRepair>,
}

pub open spec fn frames_of(segment: u64, spans: Seq<FrameSpan>) -> Seq<ReplayFrame> {
    spans.map_values(|span: FrameSpan| ReplayFrame { segment, span })
}

/// What has to be done about the tail of a segment.
pub open spec fn repair_of(segment: u64, tail: SegmentTail, is_last: bool) -> Seq<SegmentRepair> {
    match tail {
        SegmentTail::Clean => Seq::empty(),
        SegmentTail::Incomplete(at) => seq![
            SegmentRepair {
                segment,
                at,
                quarantine: if is_last {
                    None
                } else {
                    Some(QuarantineReason::IncompleteInClosedSegment)
                },
            },
        ],
        SegmentTail::Oversized(at) => seq![
            SegmentRepair { segment, at, quarantine: Some(QuarantineReason::FrameTooLong) },
        ],
    }
}

/// Where the replay of a segment begins; `None` where it is done with.
pub open spec fn replay_from(number: u64, checkpoint: SpoolPosition) -> Option<u64> {
    if number < checkpoint.segment {
        None
    } else if number == checkpoint.segment {
        Some(checkpoint.offset)
    } else {
        Some(0)
    }
}

/// What the replay of the segments from `i` on comes to.
pub open spec fn replayed(
    segments: Seq<SegmentBytes>,
    checkpoint: SpoolPosition,
    i: nat,
) -> Result<ReplayState, SpoolError>
    decreases segments.len() - i,
{
    if i >= segments.len() {
        Ok(ReplayState { frames: Seq::empty(), repairs: Seq::empty() })
    } else {
        let number = segments[i as int].number;
        let bytes = segments[i as int].bytes@;
        match replay_from(number, checkpoint) {
            None => replayed(segments, checkpoint, i + 1),
            Some(from) => if from > bytes.len() {
                Err(SpoolError::CheckpointOutOfRange(from, number, bytes.len() as usize))
            } else {
                let (spans, tail) = scan(bytes, from as nat);
                let last = number == segments[segments.len() - 1].number;
                match replayed(segments, checkpoint, i + 1) {
                    Err(error) => Err(error),
                    Ok(rest) => Ok(
                        ReplayState {
                            frames: frames_of(number, spans) + rest.frames,
                            repairs: repair_of(number, tail, last) + rest.repairs,
                        },
                    ),
                }
            },
        }
    }
}

pub struct Replay {
    pub frames: Vec<ReplayFrame>,
    pub repairs: Vec<SegmentRepair>,
}

/// Finds what is to be replayed behind the checkpoint, in order, and what has to be
/// mended. The segments come in the order of their numbers.
pub fn replay(segments: &Vec<SegmentBytes>, checkpoint: SpoolPosition) -> (result: Result<
    Replay,
    SpoolError,
>)
    ensures
        match (result, replayed(segments@, checkpoint, 0)) {
            (Ok(replay), Ok(expected)) => replay.frames@ == expected.frames && replay.repairs@
                == expected.repairs,
            (Err(error), Err(expected)) => error == expected,
            _ => false,
        },
{
    let mut frames: Vec<ReplayFrame> = Vec::new();
    let mut repairs: Vec<SegmentRepair> = Vec::new();
    let ghost whole = replayed(segments@, checkpoint, 0);
    let mut i: usize = 0;
    proof {
        if whole is Ok {
            assert(frames@ + whole->Ok_0.frames =~= whole->Ok_0.frames);
            assert(repairs@ + whole->Ok_0.repairs =~= whole->Ok_0.repairs);
        }
    }
    while i < segments.len()
        invariant
            i <= segments.len(),
            whole == replayed(segments@, checkpoint, 0),
            match replayed(segments@, checkpoint, i as nat) {
                Ok(rest) => whole matches Ok(all) && all.frames == frames@ + rest.frames
                    && all.repairs == repairs@ + rest.repairs,
                Err(error) => whole == Err::<ReplayState, SpoolError>(error),
            },
        decreases segments.len() - i,
    {
        let number: u64 = segments[i].number;
        let skip = number < checkpoint.segment;
        if !skip {
            let from: u64 = if number == checkpoint.segment {
                checkpoint.offset
            } else {
                0
            };
            let bytes = segments[i].bytes.as_slice();
            if from > bytes.len() as u64 {
                return Err(SpoolError::CheckpointOutOfRange(from, number, bytes.len()));
            }
            let found = scan_segment(bytes, from as usize);
            let is_last = number == segments[segments.len() - 1].number;
            let ghost frames_before = frames@;
            let ghost repairs_before = repairs@;
            let mut k: usize = 0;
            while k < found.frames.len()
                invariant
                    k <= found.frames.len(),
                    frames@ == frames_before + frames_of(number, found.frames@.take(k as int)),
                decreases found.frames.len() - k,
            {
                frames.push(ReplayFrame { segment: number, span: found.frames[k] });
                k = k + 1;
                proof {
                    let old_part = frames_of(number, found.frames@.take(k - 1));
                    let new_part = frames_of(number, found.frames@.take(k as int));
                    assert(found.frames@.take(k as int) =~= found.frames@.take(k - 1).push(
                        found.frames@[k - 1],
                    ));
                    assert(new_part =~= old_part.push(
                        ReplayFrame { segment: number, span: found.frames@[k - 1] },
                    ));
                    assert(frames@ =~= frames_before + new_part);
                }
            }
            assert(found.frames@.take(k as int) =~= found.frames@);
            match found.tail {
                SegmentTail::Clean => {},
                SegmentTail::Incomplete(at) => {
                    let quarantine = if is_last {
                        None
                    } else {
                        Some(QuarantineReason::IncompleteInClosedSegment)
                    };
                    repairs.push(SegmentRepair { segment: number, at, quarantine });
                },
                SegmentTail::Oversized(at) => {
                    repairs.push(
                        SegmentRepair {
                            segment: number,
                            at,
                            quarantine: Some(QuarantineReason::FrameTooLong),
                        },
                    );
                },
            }
            proof {
                assert(repairs@ =~= repairs_before + repair_of(number, found.tail, is_last));
                match replayed(segments@, checkpoint, (i + 1) as nat) {
                    Ok(rest) => {
                        let here = replayed(segments@, checkpoint, i as nat)->Ok_0;
                        assert(frames_before + here.frames =~= frames@ + rest.frames);
                        assert(repairs_before + here.repairs =~= repairs@ + rest.repairs);
                    },
                    Err(_) => {},
                }
            }
        }
        i = i + 1;
    }
    proof {
        assert(frames@ + Seq::<ReplayFrame>::empty() =~= frames@);
        assert(repairs@ + Seq::<SegmentRepair>::empty() =~= repairs@);
    }
    Ok(Replay { frames, repairs })
}

/// The frames of the segments from `i` on, where each holds what `contents` says.
pub open spec fn spooled(
    segments: Seq<SegmentBytes>,
    contents: Seq<Seq<Seq<u8>>>,
    i: nat,
) -> Seq<ReplayFrame>
    decreases segments.len() - i,
{
    if i >= segments.len() {
        Seq::empty()
    } else {
        frames_of(segments[i as int].number, spans(contents[i as int], 0)) + spooled(
            segments,
            contents,
            i + 1,
        )
    }
}

/// Whether the segments from `i` on lie behind the checkpoint and hold exactly the
/// frames of the payloads that were appended to them.
pub open spec fn holds(
    segments: Seq<SegmentBytes>,
    checkpoint: SpoolPosition,
    contents: Seq<Seq<Seq<u8>>>,
    i: nat,
) -> bool {
    &&& contents.len() == segments.len()
    &&& forall|k: int|
        i <= k < segments.len() ==> {
            &&& checkpoint.segment < (#[trigger] segments[k]).number
            &&& all_fit(contents[k])
            &&& segments[k].bytes@ == written(contents[k])
            &&& written(contents[k]).len() <= usize::MAX
        }
}

/// Everything that was appended behind the checkpoint comes back, in order, and
/// nothing has to be mended.
pub proof fn lemma_spool_gives_back_all_segments(
    segments: Seq<SegmentBytes>,
    checkpoint: SpoolPosition,
    contents: Seq<Seq<Seq<u8>>>,
    i: nat,
)
    requires
        holds(segments, checkpoint, contents, i),
    ensures
        replayed(segments, checkpoint, i) == Ok::<ReplayState, SpoolError>(
            ReplayState { frames: spooled(segments, contents, i), repairs: Seq::empty() },
        ),
    decreases segments.len() - i,
{
    if i < segments.len() {
        let segment = segments[i as int];
        assert(checkpoint.segment < segment.number);
        lemma_replay_gives_back_what_was_written(contents[i as int]);
        lemma_spool_gives_back_all_segments(segments, checkpoint, contents, i + 1);
        assert(Seq::<SegmentRepair>::empty() + Seq::<SegmentRepair>::empty() =~= Seq::<
            SegmentRepair,
        >::empty());
    }
}

pub(crate) proof fn lemma_written_in_two_parts(done: Seq<Seq<u8>>, left: Seq<Seq<u8>>)
    ensures
        written(done + left) == written(done) + written(left),
    decreases done.len(),
{
    if done.len() == 0 {
        assert(done + left =~= left);
        assert(written(done) + written(left) =~= written(left));
    } else {
        assert((done + left).drop_first() =~= done.drop_first() + left);
        lemma_written_in_two_parts(done.drop_first(), left);
        assert(frame(done[0]) + (written(done.drop_first()) + written(left)) =~= written(done)
            + written(left));
    }
}

/// Where the last of these frames ends, a checkpoint stands that covers them all.
pub proof fn lemma_last_frame_ends_at_checkpoint(done: Seq<Seq<u8>>, at: nat)
    requires
        done.len() > 0,
        at + written(done).len() <= usize::MAX,
    ensures
        spans(done, at).len() > 0,
        spans(done, at).last().end == at + written(done).len(),
    decreases done.len(),
{
    let end = (at + FRAME_HEADER_SIZE + done[0].len()) as nat;
    let others = done.drop_first();
    assert(frame(done[0]).len() == FRAME_HEADER_SIZE + done[0].len());
    if others.len() > 0 {
        lemma_last_frame_ends_at_checkpoint(others, end);
        assert(spans(done, at).last() == spans(others, end).last());
    } else {
        assert(written(others).len() == 0);
        assert(spans(others, end).len() == 0);
        assert(spans(done, at).last() == spans(done, at)[0]);
    }
}

/// Once the first frames of a segment are acknowledged, replay gives exactly the
/// others: none of the acknowledged ones again, and none of the others lost.
pub proof fn lemma_replay_goes_on_behind_the_acknowledged(
    segments: Seq<SegmentBytes>,
    checkpoint: SpoolPosition,
    done: Seq<Seq<u8>>,
    left: Seq<Seq<u8>>,
    contents: Seq<Seq<Seq<u8>>>,
)
    requires
        segments.len() > 0,
        segments[0].number == checkpoint.segment,
        segments[0].bytes@ == written(done + left),
        written(done + left).len() <= usize::MAX,
        all_fit(left),
        checkpoint.offset == written(done).len(),
        holds(segments, checkpoint, contents, 1),
    ensures
        replayed(segments, checkpoint, 0) == Ok::<ReplayState, SpoolError>(
            ReplayState {
                frames: frames_of(checkpoint.segment, spans(left, written(done).len())) + spooled(
                    segments,
                    contents,
                    1,
                ),
                repairs: Seq::empty(),
            },
        ),
{
    let front = written(done);
    let bytes = written(done + left);
    lemma_written_in_two_parts(done, left);
    lemma_scan_finds_written(front, left, Seq::empty());
    assert(front + written(left) + Seq::<u8>::empty() =~= bytes);
    assert(spans(left, front.len()) + Seq::<FrameSpan>::empty() =~= spans(left, front.len()));
    lemma_spool_gives_back_all_segments(segments, checkpoint, contents, 1);
    assert(Seq::<SegmentRepair>::empty() + Seq::<SegmentRepair>::empty() =~= Seq::<
        SegmentRepair,
    >::empty());
}

/// What becomes of a frame on replay.
#[derive(Debug)]
pub enum FrameVerdict {
    Write,
    Quarantine { reason: String },
}

pub open spec fn quarantine_text(intact: bool, parsed: Result<u16, Seq<char>>) -> Option<Seq<char>> {
    if !intact {
        Some("CRC mismatch"@)
    } else {
        match parsed {
            Ok(version) => if version == SPOOL_SCHEMA_VERSION {
                None
            } else {
                Some(
                    "unsupported schema version "@ + decimal(version as nat) + " (expected 1)"@,
                )
            },
            Err(error) => Some("invalid JSON payload: "@ + error),
        }
    }
}

/// Decides on a frame. `parsed` is the schema version that its payload names, or why
/// it could not be read; it is looked at only where the frame is intact.
pub fn judge_frame(intact: bool, parsed: Result<u16, String>) -> (verdict: FrameVerdict)
    ensures
        match quarantine_text(
            intact,
            match parsed {
                Ok(version) => Ok(version),
                Err(error) => Err(error@),
            },
        ) {
            Some(expected) => verdict matches FrameVerdict::Quarantine { reason } && reason@
                == expected,
            None => verdict is Write,
        },
{
    if !intact {
        return FrameVerdict::Quarantine { reason: "CRC mismatch".to_owned() };
    }
    match parsed {
        Ok(version) => {
            if version == SPOOL_SCHEMA_VERSION {
                FrameVerdict::Write
            } else {
                FrameVerdict::Quarantine {
                    reason: join3(
                        "unsupported schema version ",
                        decimal_text(version as u64).as_str(),
                        " (expected 1)",
                    ),
                }
            }
        },
        Err(error) => FrameVerdict::Quarantine {
            reason: join2("invalid JSON payload: ", error.as_str()),
        },
    }
}

/// The segments before the acknowledged one, which are no longer needed.
pub open spec fn done_with(segments: Seq<u64>, position: SpoolPosition) -> Seq<u64> {
    segments.filter(|segment: u64| segment < position.segment)
}

/// Moves the checkpoint. It never moves backwards. Gives the segments that can be
/// removed.
pub fn acknowledge(current: SpoolPosition, position: SpoolPosition, segments: &Vec<u64>) -> (result:
    Result<Vec<u64>, SpoolError>)
    ensures
        match result {
            Ok(removed) => !position.before(current) && removed@ == done_with(segments@, position),
            Err(error) => position.before(current) && error == SpoolError::CheckpointMovesBackwards,
        },
{
    if position.is_before(current) {
        return Err(SpoolError::CheckpointMovesBackwards);
    }
    let mut removed: Vec<u64> = Vec::new();
    let mut i: usize = 0;
    assert(removed@ =~= done_with(segments@.take(0), position));
    while i < segments.len()
        invariant
            i <= segments.len(),
            removed@ == done_with(segments@.take(i as int), position),
        decreases segments.len() - i,
    {
        proof {
            reveal(Seq::filter);
            assert(segments@.take(i + 1).drop_last() =~= segments@.take(i as int));
        }
        if segments[i] < position.segment {
            removed.push(segments[i]);
        }
        i = i + 1;
    }
    assert(segments@.take(i as int) =~= segments@);
    Ok(removed)
}

/// What is acknowledged is not replayed again: replay begins at the checkpoint.
pub proof fn lemma_acknowledged_frames_are_not_replayed(
    number: u64,
    checkpoint: SpoolPosition,
    end: SpoolPosition,
)
    requires
        end.segment == number,
        !checkpoint.before(end),
    ensures
        match replay_from(number, checkpoint) {
            None => true,
            Some(from) => end.offset <= from,
        },
{
}

/// The number and the length of a segment.
#[derive(Debug, Clone, Copy, PartialEq, Eq, Structural)]
pub struct SegmentLength {
    pub number: u64,
    pub length: u64,
}

/// What waits in one segment.
pub open spec fn waiting(segment: SegmentLength, checkpoint: SpoolPosition) -> nat {
    match replay_from(segment.number, checkpoint) {
        None => 0,
        Some(from) => if segment.length >= from {
            (segment.length - from) as nat
        } else {
            0
        },
    }
}

pub open spec fn all_waiting(segments: Seq<SegmentLength>, checkpoint: SpoolPosition) -> nat
    decreases segments.len(),
{
    if segments.len() == 0 {
        0
    } else {
        all_waiting(segments.drop_last(), checkpoint) + waiting(segments.last(), checkpoint)
    }
}

/// How many bytes wait behind the checkpoint.
pub fn backlog_bytes(segments: &Vec<SegmentLength>, checkpoint: SpoolPosition) -> (bytes: u64)
    ensures
        bytes == (if all_waiting(segments@, checkpoint) <= u64::MAX {
            all_waiting(segments@, checkpoint)
        } else {
            u64::MAX as nat
        }),
{
    let mut bytes: u64 = 0;
    let mut i: usize = 0;
    while i < segments.len()
        invariant
            i <= segments.len(),
            bytes == (if all_waiting(segments@.take(i as int), checkpoint) <= u64::MAX {
                all_waiting(segments@.take(i as int), checkpoint)
            } else {
                u64::MAX as nat
            }),
        decreases segments.len() - i,
    {
        assert(segments@.take(i + 1).drop_last() =~= segments@.take(i as int));
        let segment = segments[i];
        if segment.number >= checkpoint.segment {
            let length: u64 = if segment.number == checkpoint.segment {
                segment.length.saturating_sub(checkpoint.offset)
            } else {
                segment.length
            };
            bytes = bytes.saturating_add(length);
        }
        i = i + 1;
    }
    assert(segments@.take(i as int) =~= segments@);
    bytes
}

/// `n` zeros.
pub open spec fn zeros(n: nat) -> Seq<char> {
    Seq::new(n, |i: int| '0')
}

/// A number in decimal, filled up with zeros to twenty digits.
pub open spec fn padded(n: u64) -> Seq<char> {
    let digits = decimal(n as nat);
    if digits.len() < 20 {
        zeros((20 - digits.len()) as nat) + digits
    } else {
        digits
    }
}

pub fn padded_text(n: u64) -> (text: String)
    ensures
        text@ == padded(n),
{
    let digits = decimal_text(n);
    let count: usize = chars_of(digits.as_str()).len();
    let mut text = String::new();
    let mut i: usize = count;
    assert(text@ =~= zeros(0));
    while i < 20
        invariant
            count <= i,
            count < 20 ==> i <= 20,
            count >= 20 ==> i == count,
            text@ == zeros((i - count) as nat),
        decreases 20 - i,
    {
        text.push('0');
        i = i + 1;
        assert(text@ =~= zeros((i - count) as nat));
    }
    let padded_digits = join2(text.as_str(), digits.as_str());
    assert(padded_digits@ =~= padded(n));
    padded_digits
}

/// The name of a segment file.
pub open spec fn segment_name(segment: u64) -> Seq<char> {
    "segment-"@ + padded(segment) + ".log"@
}

pub fn segment_file_name(segment: u64) -> (name: String)
    ensures
        name@ == segment_name(segment),
{
    join3("segment-", padded_text(segment).as_str(), ".log")
}

/// The name under which a part of a segment is put aside.
pub fn quarantine_file_name(segment: u64, offset: u64) -> (name: String)
    ensures
        name@ == "segment-"@ + padded(segment) + "-offset-"@ + padded(offset),
{
    join4(
        "segment-",
        padded_text(segment).as_str(),
        "-offset-",
        padded_text(offset).as_str(),
    )
}

/// The number that the name of a segment file holds.
pub open spec fn number_of_segment(name: Seq<char>) -> Option<u64> {
    if begins_with(name, "segment-"@) {
        let rest = name.skip("segment-"@.len() as int);
        if ends_with(rest, ".log"@) {
            parsed_u64(rest.take(rest.len() - ".log"@.len()))
        } else {
            None
        }
    } else {
        None
    }
}

pub fn parse_segment_name(name: &str) -> (number: Option<u64>)
    ensures
        number == number_of_segment(name@),
{
    proof {
        reveal_strlit("segment-");
        reveal_strlit(".log");
    }
    let chars = chars_of(name);
    let front = chars_of("segment-");
    let back = chars_of(".log");
    if chars.len() < front.len() {
        return None;
    }
    assert(name@.subrange(0, 8) =~= name@.take(8));
    if !stands_at(&chars, 0, &front) {
        return None;
    }
    let ghost rest = name@.skip(8);
    if chars.len() - front.len() < back.len() {
        assert(!ends_with(rest, ".log"@));
        return None;
    }
    assert(name@.subrange(name@.len() - 4, name@.len() as int) =~= rest.skip(rest.len() - 4));
    if !stands_at(&chars, chars.len() - back.len(), &back) {
        return None;
    }
    let digits = slice_of(&chars, front.len(), chars.len() - back.len());
    assert(digits@ =~= rest.take(rest.len() - 4));
    parse_u64(&digits)
}

proof fn lemma_leading_zeros(n: nat, digits: Seq<char>)
    requires
        digits.len() > 0,
    ensures
        digits_value(zeros(n) + digits) == digits_value(digits),
    decreases digits.len(),
{
    let all = zeros(n) + digits;
    assert(all.drop_last() =~= zeros(n) + digits.drop_last());
    assert(all.last() == digits.last());
    if digits.len() == 1 {
        lemma_zeros_are_nothing(n);
        assert(zeros(n) + digits.drop_last() =~= zeros(n));
        assert(digits_value(digits.drop_last()) == 0);
    } else {
        lemma_leading_zeros(n, digits.drop_last());
    }
    assert(digits_value(all.drop_last()) == digits_value(digits.drop_last()));
    assert(digits_value(all) == (digits_value(all.drop_last()) * 10 + (all.last() as nat - 48)) as nat);
}

proof fn lemma_zeros_are_nothing(n: nat)
    ensures
        digits_value(zeros(n)) == 0,
    decreases n,
{
    if n > 0 {
        lemma_zeros_are_nothing((n - 1) as nat);
        assert(zeros(n).drop_last() =~= zeros((n - 1) as nat));
    }
}

/// The name of a segment tells its number.
pub proof fn lemma_segment_name_reads_back(segment: u64)
    ensures
        number_of_segment(segment_name(segment)) == Some(segment),
{
    reveal_strlit("segment-");
    reveal_strlit(".log");
    let name = segment_name(segment);
    let digits = padded(segment);
    assert(name.take(8) =~= "segment-"@);
    let rest = name.skip(8);
    assert(rest =~= digits + ".log"@);
    assert(rest.skip(rest.len() - 4) =~= ".log"@);
    assert(rest.take(rest.len() - 4) =~= digits);
    lemma_decimal_digits(segment as nat);
    let plain = decimal(segment as nat);
    assert(all_digits(plain) && digits_value(plain) == segment);
    if plain.len() < 20 {
        lemma_leading_zeros((20 - plain.len()) as nat, plain);
    }
    assert(digits_value(digits) == segment);
    assert(all_digits(digits)) by {
        assert forall|i: int| 0 <= i < digits.len() implies crate::text::is_digit(
            #[trigger] digits[i],
        ) by {
            if plain.len() < 20 {
                let n = 20 - plain.len();
                if i >= n {
                    assert(digits[i] == plain[i - n]);
                }
            }
        }
    }
    assert(digits[0] != '+') by {
        assert(crate::text::is_digit(digits[0]));
    }
}

} // verus!
