//! What holds of the spool as it stands on disk: how a frame is laid out, where the
//! next one goes, what is cut off or put aside, and how files are named.

use crate::bytes::le32_at;
use crate::call::cdr_spool::{
    append_place, crc32_of, done_with, frame, frame_end, frames_of, number_of_segment, padded,
    quarantine_text, repair_of, replay_from, scan, segment_name, waiting, FrameSpan,
    QuarantineReason, ReplayFrame, SegmentLength, SegmentRepair, SegmentTail, SpoolError,
    SpoolPosition,
};
use crate::text::{decimal, parsed_u64};
use vstd::prelude::*;

verus! {

/// Positions are ordered by their segment, and within one by their offset: of two that
/// differ, exactly one comes first.
pub proof fn lemma_positions_are_ordered(a: SpoolPosition, b: SpoolPosition)
    ensures
        a.segment < b.segment ==> a.before(b) && !b.before(a),
        a.segment == b.segment && a.offset < b.offset ==> a.before(b) && !b.before(a),
        !a.before(a),
        a != b ==> a.before(b) != b.before(a),
{
}

/// A frame begins with the length of its payload and its checksum, four bytes each,
/// the least significant first; the payload follows as it is.
pub proof fn lemma_layout_of_a_frame(payload: Seq<u8>)
    requires
        payload.len() <= u32::MAX,
    ensures
        frame(payload).len() == payload.len() + 8,
        le32_at(frame(payload), 0) == payload.len(),
        le32_at(frame(payload), 4) == crc32_of(payload),
        frame(payload).skip(8) == payload,
{
    let f = frame(payload);
    assert(f.subrange(0, 4) =~= crate::bytes::le32(payload.len() as u32));
    assert(f.subrange(4, 8) =~= crate::bytes::le32(crc32_of(payload)));
    crate::bytes::lemma_le32_reads_back(payload.len() as u32, f, 0);
    crate::bytes::lemma_le32_reads_back(crc32_of(payload), f, 4);
    assert(f.skip(8) =~= payload);
}

/// A frame is appended where the last segment ends, unless it would make a segment that
/// holds something longer than 16 MiB: then it begins the next. The first segment comes
/// behind the checkpoint's.
pub proof fn lemma_where_a_frame_goes(
    segment: u64,
    length: u64,
    checkpoint: SpoolPosition,
    size: nat,
)
    ensures
        length == 0 || length + size <= 16_777_216 ==> append_place(
            Some((segment, length)),
            checkpoint,
            size,
        ) == (SpoolPosition { segment, offset: length }),
        length > 0 && length + size > 16_777_216 && segment < u64::MAX ==> append_place(
            Some((segment, length)),
            checkpoint,
            size,
        ) == (SpoolPosition { segment: (segment + 1) as u64, offset: 0 }),
        checkpoint.segment < u64::MAX ==> append_place(None, checkpoint, size) == (SpoolPosition {
            segment: (checkpoint.segment + 1) as u64,
            offset: 0,
        }),
{
}

/// A frame ends as many bytes behind its place as it is long.
pub proof fn lemma_where_a_frame_ends(place: SpoolPosition, size: nat)
    ensures
        frame_end(place, size).segment == place.segment,
        place.offset + size <= u64::MAX ==> frame_end(place, size).offset == place.offset + size,
        place.offset + size > u64::MAX ==> frame_end(place, size).offset == u64::MAX,
{
}

/// What follows the last whole frame: too few bytes for a header, or for what the header
/// announces, are incomplete; a length above 64 MiB is one that no frame has.
pub proof fn lemma_what_follows_the_last_frame(bytes: Seq<u8>)
    requires
        bytes.len() <= usize::MAX,
    ensures
        bytes.len() == 0 ==> scan(bytes, 0) == (Seq::<FrameSpan>::empty(), SegmentTail::Clean),
        0 < bytes.len() < 8 ==> scan(bytes, 0) == (
            Seq::<FrameSpan>::empty(),
            SegmentTail::Incomplete(0),
        ),
        bytes.len() >= 8 && le32_at(bytes, 0) > 67_108_864 ==> scan(bytes, 0) == (
            Seq::<FrameSpan>::empty(),
            SegmentTail::Oversized(0),
        ),
        bytes.len() >= 8 && le32_at(bytes, 0) <= 67_108_864 && bytes.len() < 8 + le32_at(bytes, 0)
            ==> scan(bytes, 0) == (Seq::<FrameSpan>::empty(), SegmentTail::Incomplete(0)),
        bytes.len() >= 8 && le32_at(bytes, 0) <= 67_108_864 && bytes.len() >= 8 + le32_at(bytes, 0)
            ==> {
            let spans = scan(bytes, 0).0;
            &&& spans.len() > 0
            &&& spans[0].start == 0
            &&& spans[0].end == 8 + le32_at(bytes, 0)
            &&& spans[0].intact <==> crc32_of(bytes.subrange(8, 8 + le32_at(bytes, 0))) == le32_at(
                bytes,
                4,
            )
        },
{
}

/// A clean segment needs no repair. The unfinished end of the last segment is cut off;
/// that of an earlier one, and a length that no frame has, are put aside besides.
pub proof fn lemma_what_is_mended(segment: u64, at: usize)
    ensures
        repair_of(segment, SegmentTail::Clean, true).len() == 0,
        repair_of(segment, SegmentTail::Clean, false).len() == 0,
        repair_of(segment, SegmentTail::Incomplete(at), true) == seq![
            SegmentRepair { segment, at, quarantine: None },
        ],
        repair_of(segment, SegmentTail::Incomplete(at), false) == seq![
            SegmentRepair {
                segment,
                at,
                quarantine: Some(QuarantineReason::IncompleteInClosedSegment),
            },
        ],
        repair_of(segment, SegmentTail::Oversized(at), true) == seq![
            SegmentRepair { segment, at, quarantine: Some(QuarantineReason::FrameTooLong) },
        ],
        repair_of(segment, SegmentTail::Oversized(at), false) == seq![
            SegmentRepair { segment, at, quarantine: Some(QuarantineReason::FrameTooLong) },
        ],
        QuarantineReason::FrameTooLong.code() == "frame length exceeds maximum"@,
        QuarantineReason::IncompleteInClosedSegment.code() == "incomplete frame in closed segment"@,
{
}

/// Replay leaves out the segments before the checkpoint's, begins in that one at the
/// checkpoint, and in later ones at their beginning.
pub proof fn lemma_where_replay_begins(number: u64, checkpoint: SpoolPosition)
    ensures
        number < checkpoint.segment <==> replay_from(number, checkpoint) is None,
        number == checkpoint.segment ==> replay_from(number, checkpoint) == Some(checkpoint.offset),
        number > checkpoint.segment ==> replay_from(number, checkpoint) == Some(0u64),
{
}

/// A frame that is replayed can be acknowledged at its end, in its segment.
pub proof fn lemma_frames_keep_their_segment(segment: u64, spans: Seq<FrameSpan>, i: int)
    requires
        0 <= i < spans.len(),
    ensures
        frames_of(segment, spans).len() == spans.len(),
        frames_of(segment, spans)[i] == (ReplayFrame { segment, span: spans[i] }),
        frames_of(segment, spans)[i].behind_it().segment == segment,
        frames_of(segment, spans)[i].behind_it().offset == spans[i].end as u64,
{
}

/// A frame is written where its checksum is right and its payload is of the version of
/// now; any other is put aside, and the reason says why.
pub proof fn lemma_which_frames_are_put_aside(version: u16, error: Seq<char>)
    ensures
        quarantine_text(true, Ok(1)) is None,
        version != 1 ==> quarantine_text(true, Ok(version)) == Some(
            "unsupported schema version "@ + decimal(version as nat) + " (expected 1)"@,
        ),
        quarantine_text(true, Err(error)) == Some("invalid JSON payload: "@ + error),
        quarantine_text(false, Ok(version)) == Some("CRC mismatch"@),
        quarantine_text(false, Err(error)) == Some("CRC mismatch"@),
{
}

/// An acknowledgement does away with the segments before its own, and with no others.
pub proof fn lemma_which_segments_are_done_with(
    segments: Seq<u64>,
    position: SpoolPosition,
    i: int,
)
    requires
        0 <= i < segments.len(),
    ensures
        done_with(segments, position).contains(segments[i]) <==> segments[i] < position.segment,
{
    broadcast use vstd::seq_lib::group_filter_ensures;

    let old_one = |segment: u64| segment < position.segment;
    let gone = done_with(segments, position);
    if segments[i] < position.segment {
        assert(old_one(segments[i]));
    }
    if gone.contains(segments[i]) {
        let k = choose|k: int| 0 <= k < gone.len() && gone[k] == segments[i];
        assert(old_one(segments.filter(old_one)[k]));
    }
}

/// What waits in a segment: all of a later one, the rest of the checkpoint's, nothing of
/// an earlier one.
pub proof fn lemma_what_waits_in_a_segment(segment: SegmentLength, checkpoint: SpoolPosition)
    ensures
        segment.number > checkpoint.segment ==> waiting(segment, checkpoint) == segment.length,
        segment.number < checkpoint.segment ==> waiting(segment, checkpoint) == 0,
        segment.number == checkpoint.segment && segment.length >= checkpoint.offset ==> waiting(
            segment,
            checkpoint,
        ) == segment.length - checkpoint.offset,
        segment.number == checkpoint.segment && segment.length < checkpoint.offset ==> waiting(
            segment,
            checkpoint,
        ) == 0,
{
}

/// The words for what may go wrong with the spool.
pub proof fn lemma_words_for_spool_errors(offset: u64, segment: u64, size: usize)
    ensures
        SpoolError::FrameTooLarge(size).message() == "CDR spool frame exceeds maximum size: "@
            + decimal(size as nat),
        SpoolError::CheckpointOutOfRange(offset, segment, size).message()
            == "CDR spool checkpoint "@ + decimal(offset as nat) + " exceeds segment "@ + decimal(
            segment as nat,
        ) + " length "@ + decimal(size as nat),
        SpoolError::CheckpointMovesBackwards.message()
            == "CDR spool checkpoint cannot move backwards"@,
{
}

/// A segment's file is named after its number, in twenty digits.
pub proof fn lemma_segment_files_are_named(segment: u64)
    ensures
        segment_name(segment) == "segment-"@ + padded(segment) + ".log"@,
        padded(segment).len() >= 20,
        decimal(segment as nat).len() <= 20 ==> padded(segment).len() == 20,
        padded(segment).skip(padded(segment).len() - decimal(segment as nat).len()) == decimal(
            segment as nat,
        ),
{
    let digits = decimal(segment as nat);
    assert(padded(segment).skip(padded(segment).len() - digits.len()) =~= digits);
}

/// A file is a segment only where its name is the word for it, a number and the ending,
/// and then it has that number.
pub proof fn lemma_which_files_are_segments(name: Seq<char>, digits: Seq<char>)
    ensures
        number_of_segment("segment-"@ + digits + ".log"@) == parsed_u64(digits),
        number_of_segment(name) matches Some(number) ==> {
            let inner = name.subrange(8, name.len() - 4);
            name == "segment-"@ + inner + ".log"@ && parsed_u64(inner) == Some(number)
        },
{
    reveal_strlit("segment-");
    reveal_strlit(".log");
    assert("segment-"@.len() == 8 && ".log"@.len() == 4);
    let built = "segment-"@ + digits + ".log"@;
    assert(built.take(8) =~= "segment-"@);
    assert(built.skip(8) =~= digits + ".log"@);
    assert((digits + ".log"@).skip(digits.len() as int) =~= ".log"@);
    assert((digits + ".log"@).take(digits.len() as int) =~= digits);
    if number_of_segment(name) is Some {
        let rest = name.skip(8);
        let inner = rest.take(rest.len() - 4);
        assert(inner =~= name.subrange(8, name.len() - 4));
        assert(name =~= name.take(8) + rest);
        assert(rest =~= inner + rest.skip(rest.len() - 4));
        assert(name =~= "segment-"@ + inner + ".log"@);
    }
}

} // verus!
