//! What the spool keeps over its segments: everything that was appended comes back
//! where it was said to end, and what was acknowledged is gone.

use crate::bytes::{le32, le32_at, lemma_le32_reads_back};
use crate::call::cdr_spool::{
    all_fit, all_waiting, append_place, done_with, frame, frame_end, frames_of,
    lemma_last_frame_ends_at_checkpoint, lemma_scan_finds_written, lemma_spans_hold_payloads,
    lemma_written_in_two_parts, payload_of, replay_from, replayed, scan, spans, waiting, written,
    FrameSpan, QuarantineReason, ReplayFrame, ReplayState, SegmentBytes, SegmentLength,
    SegmentRepair, SegmentTail, SpoolError, SpoolPosition, FRAME_HEADER_SIZE, MAX_FRAME_SIZE,
    SEGMENT_SIZE_LIMIT,
};
use vstd::prelude::*;

verus! {

/// A segment by its number and the payloads that were appended to it.
pub struct Filled {
    pub number: u64,
    pub payloads: Seq<Seq<u8>>,
}

impl Filled {
    pub open spec fn sound(self) -> bool {
        &&& all_fit(self.payloads)
        &&& written(self.payloads).len() <= SEGMENT_SIZE_LIMIT || self.payloads.len() == 1
    }

    pub open spec fn frames(self) -> Seq<ReplayFrame> {
        frames_of(self.number, spans(self.payloads, 0))
    }

    /// Whether a position in the segment is its beginning or behind one of its frames.
    pub open spec fn ends_at(self, offset: u64) -> bool {
        exists|n: int|
            0 <= n <= self.payloads.len() && offset == #[trigger] written(
                self.payloads.take(n),
            ).len()
    }
}

/// Whether the segments of a spool follow each other and are filled as they are by
/// appending.
pub open spec fn sound(spool: Seq<Filled>) -> bool {
    &&& forall|k: int| 0 <= k < spool.len() ==> (#[trigger] spool[k]).sound()
    &&& forall|j: int, k: int|
        0 <= j < k < spool.len() ==> (#[trigger] spool[j]).number < (#[trigger] spool[k]).number
}

/// Whether a position is one that the spool gave out: behind a frame, or where none of
/// its segments is.
pub open spec fn given_out(position: SpoolPosition, spool: Seq<Filled>) -> bool {
    &&& forall|k: int|
        0 <= k < spool.len() && (#[trigger] spool[k]).number == position.segment
            ==> spool[k].ends_at(position.offset)
    &&& spool.len() > 0 ==> position.segment <= spool.last().number
}

/// All frames of a spool, in order.
pub open spec fn frames_in(spool: Seq<Filled>) -> Seq<ReplayFrame>
    decreases spool.len(),
{
    if spool.len() == 0 {
        Seq::empty()
    } else {
        spool[0].frames() + frames_in(spool.drop_first())
    }
}

/// All payloads of a spool, in order.
pub open spec fn payloads_in(spool: Seq<Filled>) -> Seq<Seq<u8>>
    decreases spool.len(),
{
    if spool.len() == 0 {
        Seq::empty()
    } else {
        spool[0].payloads + payloads_in(spool.drop_first())
    }
}

/// The frames that end behind a position.
pub open spec fn left_behind(frames: Seq<ReplayFrame>, position: SpoolPosition) -> Seq<
    ReplayFrame,
> {
    frames.filter(|f: ReplayFrame| position.before(f.behind_it()))
}

/// Whether these bytes begin a frame and end before it does.
pub open spec fn incomplete(bytes: Seq<u8>) -> bool {
    &&& bytes.len() > 0
    &&& bytes.len() >= FRAME_HEADER_SIZE ==> {
        &&& le32_at(bytes, 0) <= MAX_FRAME_SIZE
        &&& bytes.len() - FRAME_HEADER_SIZE < le32_at(bytes, 0)
    }
}

/// Whether these bytes begin with a length that no frame has.
pub open spec fn oversized(bytes: Seq<u8>) -> bool {
    bytes.len() >= FRAME_HEADER_SIZE && le32_at(bytes, 0) > MAX_FRAME_SIZE
}

/// Whether no frame begins these bytes.
pub open spec fn frameless(bytes: Seq<u8>) -> bool {
    bytes.len() == 0 || incomplete(bytes) || oversized(bytes)
}

/// Why such bytes at the end of the last segment are put aside when they are cut off. The
/// beginning of a frame is not.
pub open spec fn reason_of(torn: Seq<u8>) -> Option<QuarantineReason> {
    if oversized(torn) {
        Some(QuarantineReason::FrameTooLong)
    } else {
        None
    }
}

/// What a scan finds of such bytes that begin at `at`.
pub open spec fn tail_of(torn: Seq<u8>, at: nat) -> SegmentTail {
    if torn.len() == 0 {
        SegmentTail::Clean
    } else if oversized(torn) {
        SegmentTail::Oversized(at as usize)
    } else {
        SegmentTail::Incomplete(at as usize)
    }
}

/// A frame that was only half written is incomplete.
pub proof fn lemma_half_written_frame_is_incomplete(payload: Seq<u8>, kept: nat)
    requires
        payload.len() <= MAX_FRAME_SIZE,
        0 < kept < frame(payload).len(),
    ensures
        incomplete(frame(payload).take(kept as int)),
{
    let part = frame(payload).take(kept as int);
    if kept >= FRAME_HEADER_SIZE {
        assert(part.subrange(0, 4) =~= le32(payload.len() as u32));
        lemma_le32_reads_back(payload.len() as u32, part, 0);
    }
}

/// Whether the segments on disk hold the frames of the spool, and `torn` behind the last.
pub open spec fn on_disk(disk: Seq<SegmentBytes>, spool: Seq<Filled>, torn: Seq<u8>) -> bool {
    &&& disk.len() == spool.len()
    &&& forall|k: int|
        0 <= k < disk.len() ==> {
            &&& (#[trigger] disk[k]).number == spool[k].number
            &&& disk[k].bytes@ == written(spool[k].payloads) + (if k == disk.len() - 1 {
                torn
            } else {
                Seq::empty()
            })
        }
}

/// Whether a frame's payload stands on disk where the frame says.
pub open spec fn gives(disk: Seq<SegmentBytes>, f: ReplayFrame, payload: Seq<u8>) -> bool {
    exists|k: int|
        0 <= k < disk.len() && (#[trigger] disk[k]).number == f.segment && payload_of(
            disk[k].bytes@,
            f.span,
        ) == payload
}

proof fn lemma_filter_keeps_all<A>(s: Seq<A>, pred: spec_fn(A) -> bool)
    requires
        forall|i: int| 0 <= i < s.len() ==> pred(#[trigger] s[i]),
    ensures
        s.filter(pred) == s,
    decreases s.len(),
{
    reveal(Seq::filter);
    if s.len() > 0 {
        lemma_filter_keeps_all(s.drop_last(), pred);
        assert(pred(s[s.len() - 1]));
        assert(s.drop_last().push(s.last()) =~= s);
    } else {
        assert(s.filter(pred) =~= s);
    }
}

proof fn lemma_filter_keeps_none<A>(s: Seq<A>, pred: spec_fn(A) -> bool)
    requires
        forall|i: int| 0 <= i < s.len() ==> !pred(#[trigger] s[i]),
    ensures
        s.filter(pred) == Seq::<A>::empty(),
    decreases s.len(),
{
    reveal(Seq::filter);
    if s.len() > 0 {
        lemma_filter_keeps_none(s.drop_last(), pred);
        assert(!pred(s[s.len() - 1]));
    } else {
        assert(s.filter(pred) =~= Seq::<A>::empty());
    }
}

proof fn lemma_filter_of_filter<A>(s: Seq<A>, wide: spec_fn(A) -> bool, narrow: spec_fn(A) -> bool)
    requires
        forall|x: A| #[trigger] narrow(x) ==> wide(x),
    ensures
        s.filter(wide).filter(narrow) == s.filter(narrow),
    decreases s.len(),
{
    reveal(Seq::filter);
    if s.len() > 0 {
        let front = s.drop_last();
        lemma_filter_of_filter(front, wide, narrow);
        if wide(s.last()) {
            let kept = front.filter(wide).push(s.last());
            assert(kept.drop_last() =~= front.filter(wide));
            assert(kept.last() == s.last());
        } else {
            assert(!narrow(s.last()));
        }
    }
}

proof fn lemma_spans_in_two_parts(done: Seq<Seq<u8>>, left: Seq<Seq<u8>>, at: nat)
    ensures
        spans(done + left, at) == spans(done, at) + spans(left, at + written(done).len()),
    decreases done.len(),
{
    if done.len() == 0 {
        assert(done + left =~= left);
        assert(spans(done, at) + spans(left, at) =~= spans(left, at));
    } else {
        let end = (at + FRAME_HEADER_SIZE + done[0].len()) as nat;
        assert((done + left).drop_first() =~= done.drop_first() + left);
        lemma_spans_in_two_parts(done.drop_first(), left, end);
        assert(frame(done[0]).len() == FRAME_HEADER_SIZE + done[0].len());
        assert(end + written(done.drop_first()).len() == at + written(done).len());
        let span = FrameSpan { start: at as usize, end: end as usize, intact: true };
        assert(seq![span] + (spans(done.drop_first(), end) + spans(left, at + written(done).len()))
            =~= spans(done, at) + spans(left, at + written(done).len()));
    }
}

/// The frames of a segment stand one behind the other, within what was written.
proof fn lemma_spans_in_order(payloads: Seq<Seq<u8>>, at: nat)
    requires
        at + written(payloads).len() <= usize::MAX,
    ensures
        spans(payloads, at).len() == payloads.len(),
        forall|i: int|
            0 <= i < payloads.len() ==> {
                &&& at < (#[trigger] spans(payloads, at)[i]).end <= at + written(payloads).len()
                &&& spans(payloads, at)[i].start + FRAME_HEADER_SIZE <= spans(payloads, at)[i].end
                &&& spans(payloads, at)[i].intact
            },
        forall|i: int, j: int|
            0 <= i < j < payloads.len() ==> (#[trigger] spans(payloads, at)[i]).end < (
            #[trigger] spans(payloads, at)[j]).end,
    decreases payloads.len(),
{
    if payloads.len() > 0 {
        let end = (at + FRAME_HEADER_SIZE + payloads[0].len()) as nat;
        let others = payloads.drop_first();
        assert(frame(payloads[0]).len() == FRAME_HEADER_SIZE + payloads[0].len());
        lemma_spans_in_order(others, end);
        let all = spans(payloads, at);
        assert forall|i: int| 0 < i < payloads.len() implies #[trigger] all[i] == spans(
            others,
            end,
        )[i - 1] by {}
        assert forall|i: int| 0 <= i < payloads.len() implies {
            &&& at < (#[trigger] all[i]).end <= at + written(payloads).len()
            &&& all[i].start + FRAME_HEADER_SIZE <= all[i].end
            &&& all[i].intact
        } by {
            if i > 0 {
                assert(all[i] == spans(others, end)[i - 1]);
            }
        }
        assert forall|i: int, j: int| 0 <= i < j < payloads.len() implies (#[trigger] all[i]).end
            < (#[trigger] all[j]).end by {
            assert(all[j] == spans(others, end)[j - 1]);
            if i > 0 {
                assert(all[i] == spans(others, end)[i - 1]);
            }
        }
    }
}

/// A segment is never longer than the limit, or than its only frame.
proof fn lemma_segment_is_short(segment: Filled)
    requires
        segment.sound(),
    ensures
        written(segment.payloads).len() <= MAX_FRAME_SIZE + FRAME_HEADER_SIZE,
{
    let payloads = segment.payloads;
    if payloads.len() == 1 {
        assert(payloads[0].len() <= MAX_FRAME_SIZE);
        assert(written(payloads.drop_first()).len() == 0);
        assert(frame(payloads[0]).len() == FRAME_HEADER_SIZE + payloads[0].len());
    }
}

proof fn lemma_part_is_shorter(payloads: Seq<Seq<u8>>, n: int)
    requires
        0 <= n <= payloads.len(),
    ensures
        written(payloads) == written(payloads.take(n)) + written(payloads.skip(n)),
{
    assert(payloads.take(n) + payloads.skip(n) =~= payloads);
    lemma_written_in_two_parts(payloads.take(n), payloads.skip(n));
}

proof fn lemma_frameless_tail(front: Seq<u8>, torn: Seq<u8>)
    requires
        frameless(torn),
        front.len() + torn.len() <= usize::MAX,
    ensures
        scan(front + torn, front.len()) == (
            Seq::<FrameSpan>::empty(),
            tail_of(torn, front.len()),
        ),
{
    let bytes = front + torn;
    if torn.len() >= FRAME_HEADER_SIZE {
        let at = front.len() as int;
        assert(bytes[at] == torn[0] && bytes[at + 1] == torn[1] && bytes[at + 2] == torn[2]
            && bytes[at + 3] == torn[3]);
    }
}

/// The frames of a segment that end behind a checkpoint in it are those that a scan from
/// there finds.
proof fn lemma_frames_behind_a_checkpoint(segment: Filled, checkpoint: SpoolPosition, n: int)
    requires
        segment.sound(),
        segment.number == checkpoint.segment,
        0 <= n <= segment.payloads.len(),
        checkpoint.offset == written(segment.payloads.take(n)).len(),
    ensures
        left_behind(segment.frames(), checkpoint) == frames_of(
            segment.number,
            spans(segment.payloads.skip(n), checkpoint.offset as nat),
        ),
{
    let done = segment.payloads.take(n);
    let left = segment.payloads.skip(n);
    let at = written(done).len();
    let pred = |f: ReplayFrame| checkpoint.before(f.behind_it());
    lemma_segment_is_short(segment);
    lemma_part_is_shorter(segment.payloads, n);
    assert(done + left =~= segment.payloads);
    lemma_spans_in_two_parts(done, left, 0);
    lemma_spans_in_order(done, 0);
    lemma_spans_in_order(left, at);
    let first = frames_of(segment.number, spans(done, 0));
    let second = frames_of(segment.number, spans(left, at));
    assert(segment.frames() =~= first + second);
    Seq::filter_distributes_over_add(first, second, pred);
    assert forall|i: int| 0 <= i < first.len() implies !pred(#[trigger] first[i]) by {
        assert(first[i].span == spans(done, 0)[i]);
    }
    lemma_filter_keeps_none(first, pred);
    assert forall|i: int| 0 <= i < second.len() implies pred(#[trigger] second[i]) by {
        assert(second[i].span == spans(left, at)[i]);
    }
    lemma_filter_keeps_all(second, pred);
    assert(Seq::<ReplayFrame>::empty() + second =~= second);
}

/// The frames of a segment that lies as a whole before or behind a checkpoint.
proof fn lemma_frames_of_another_segment(segment: Filled, checkpoint: SpoolPosition)
    requires
        segment.number != checkpoint.segment,
    ensures
        left_behind(segment.frames(), checkpoint) == if segment.number < checkpoint.segment {
            Seq::empty()
        } else {
            segment.frames()
        },
{
    let pred = |f: ReplayFrame| checkpoint.before(f.behind_it());
    if segment.number < checkpoint.segment {
        lemma_filter_keeps_none(segment.frames(), pred);
    } else {
        lemma_filter_keeps_all(segment.frames(), pred);
    }
}

/// What a torn last segment has to be cut at.
pub open spec fn cut_of(spool: Seq<Filled>, torn: Seq<u8>) -> Seq<SegmentRepair> {
    if spool.len() == 0 || torn.len() == 0 {
        Seq::empty()
    } else {
        seq![
            SegmentRepair {
                segment: spool.last().number,
                at: written(spool.last().payloads).len() as usize,
                quarantine: reason_of(torn),
            },
        ]
    }
}

/// Replay gives exactly the frames that end behind the checkpoint, in order. Bytes at the
/// end that no frame begins come to nothing: the last segment is cut where they begin.
pub proof fn lemma_replay_gives_what_lies_behind(
    disk: Seq<SegmentBytes>,
    spool: Seq<Filled>,
    torn: Seq<u8>,
    checkpoint: SpoolPosition,
)
    requires
        sound(spool),
        given_out(checkpoint, spool),
        on_disk(disk, spool, torn),
        frameless(torn),
    ensures
        replayed(disk, checkpoint, 0) == Ok::<ReplayState, SpoolError>(
            ReplayState {
                frames: left_behind(frames_in(spool), checkpoint),
                repairs: cut_of(spool, torn),
            },
        ),
{
    lemma_replay_from(disk, spool, torn, checkpoint, 0);
    assert(spool.skip(0) =~= spool);
}

/// The replay of one segment that the checkpoint has not passed.
proof fn lemma_replay_of_a_segment(
    segment: Filled,
    behind: Seq<u8>,
    bytes: Seq<u8>,
    checkpoint: SpoolPosition,
)
    requires
        segment.sound(),
        checkpoint.segment <= segment.number,
        checkpoint.segment == segment.number ==> segment.ends_at(checkpoint.offset),
        frameless(behind),
        bytes == written(segment.payloads) + behind,
        bytes.len() <= usize::MAX,
    ensures
        replay_from(segment.number, checkpoint) matches Some(from) && from <= bytes.len() && {
            &&& frames_of(segment.number, scan(bytes, from as nat).0) == left_behind(
                segment.frames(),
                checkpoint,
            )
            &&& scan(bytes, from as nat).1 == tail_of(behind, written(segment.payloads).len())
        },
{
    let here = segment.number == checkpoint.segment;
    let n = if here {
        choose|n: int|
            0 <= n <= segment.payloads.len() && checkpoint.offset == #[trigger] written(
                segment.payloads.take(n),
            ).len()
    } else {
        0
    };
    let done = segment.payloads.take(n);
    let left = segment.payloads.skip(n);
    let front = written(done);
    if here {
        lemma_frames_behind_a_checkpoint(segment, checkpoint, n);
    } else {
        lemma_frames_of_another_segment(segment, checkpoint);
        assert(front.len() == 0);
        assert(left =~= segment.payloads);
    }
    lemma_segment_is_short(segment);
    lemma_part_is_shorter(segment.payloads, n);
    assert(all_fit(left)) by {
        assert forall|k: int| 0 <= k < left.len() implies (#[trigger] left[k]).len()
            <= MAX_FRAME_SIZE by {
            assert(left[k] == segment.payloads[k + n]);
        }
    }
    assert(bytes =~= front + written(left) + behind);
    lemma_scan_finds_written(front, left, behind);
    lemma_frameless_tail(front + written(left), behind);
    assert(scan(bytes, front.len()).0 =~= spans(left, front.len()));
}

proof fn lemma_replay_from(
    disk: Seq<SegmentBytes>,
    spool: Seq<Filled>,
    torn: Seq<u8>,
    checkpoint: SpoolPosition,
    i: nat,
)
    requires
        sound(spool),
        given_out(checkpoint, spool),
        on_disk(disk, spool, torn),
        frameless(torn),
        i <= spool.len(),
    ensures
        replayed(disk, checkpoint, i) == Ok::<ReplayState, SpoolError>(
            ReplayState {
                frames: left_behind(frames_in(spool.skip(i as int)), checkpoint),
                repairs: cut_of(spool.skip(i as int), torn),
            },
        ),
    decreases spool.len() - i,
{
    let rest = spool.skip(i as int);
    let pred = |f: ReplayFrame| checkpoint.before(f.behind_it());
    if i == spool.len() {
        lemma_filter_keeps_none(frames_in(rest), pred);
    } else {
        let segment = spool[i as int];
        let number = disk[i as int].number;
        let bytes = disk[i as int].bytes@;
        let is_last = i == spool.len() - 1;
        let behind = if is_last {
            torn
        } else {
            Seq::<u8>::empty()
        };
        assert(rest[0] == segment);
        assert(rest.drop_first() =~= spool.skip(i as int + 1));
        lemma_replay_from(disk, spool, torn, checkpoint, i + 1);
        let later = replayed(disk, checkpoint, i + 1)->Ok_0;
        Seq::filter_distributes_over_add(segment.frames(), frames_in(rest.drop_first()), pred);
        assert((number == disk[disk.len() - 1].number) == is_last);
        assert(!is_last ==> rest.drop_first().last() == rest.last());
        if number < checkpoint.segment {
            lemma_frames_of_another_segment(segment, checkpoint);
            assert(Seq::<ReplayFrame>::empty() + later.frames =~= later.frames);
        } else {
            assert(bytes.len() == disk[i as int].bytes.len());
            lemma_replay_of_a_segment(segment, behind, bytes, checkpoint);
            assert(cut_of(rest, torn) =~= if is_last {
                cut_of(rest, torn) + later.repairs
            } else {
                Seq::empty() + later.repairs
            });
        }
    }
}

proof fn lemma_frames_in_two_parts(a: Seq<Filled>, b: Seq<Filled>)
    ensures
        frames_in(a + b) == frames_in(a) + frames_in(b),
        payloads_in(a + b) == payloads_in(a) + payloads_in(b),
    decreases a.len(),
{
    if a.len() == 0 {
        assert(a + b =~= b);
        assert(frames_in(a) + frames_in(b) =~= frames_in(b));
        assert(payloads_in(a) + payloads_in(b) =~= payloads_in(b));
    } else {
        assert((a + b).drop_first() =~= a.drop_first() + b);
        lemma_frames_in_two_parts(a.drop_first(), b);
        assert(a[0].frames() + (frames_in(a.drop_first()) + frames_in(b)) =~= frames_in(a)
            + frames_in(b));
        assert(a[0].payloads + (payloads_in(a.drop_first()) + payloads_in(b)) =~= payloads_in(a)
            + payloads_in(b));
    }
}

proof fn lemma_frames_of_one(segment: Filled)
    ensures
        frames_in(seq![segment]) == segment.frames(),
        payloads_in(seq![segment]) == segment.payloads,
{
    let one = seq![segment];
    reveal_with_fuel(frames_in, 2);
    reveal_with_fuel(payloads_in, 2);
    assert(one.drop_first() =~= Seq::<Filled>::empty());
    assert(frames_in(one) =~= segment.frames());
    assert(payloads_in(one) =~= segment.payloads);
}

/// The number and the length of the last segment.
pub open spec fn last_of(spool: Seq<Filled>) -> Option<(u64, u64)> {
    if spool.len() == 0 {
        None
    } else {
        Some((spool.last().number, written(spool.last().payloads).len() as u64))
    }
}

/// Where the next payload is appended.
pub open spec fn next_place(
    spool: Seq<Filled>,
    checkpoint: SpoolPosition,
    payload: Seq<u8>,
) -> SpoolPosition {
    append_place(last_of(spool), checkpoint, frame(payload).len())
}

/// The spool after one more payload.
pub open spec fn with_payload(
    spool: Seq<Filled>,
    checkpoint: SpoolPosition,
    payload: Seq<u8>,
) -> Seq<Filled> {
    let place = next_place(spool, checkpoint, payload);
    if spool.len() > 0 && place.segment == spool.last().number {
        spool.drop_last().push(
            Filled { number: place.segment, payloads: spool.last().payloads.push(payload) },
        )
    } else {
        spool.push(Filled { number: place.segment, payloads: seq![payload] })
    }
}

/// The spool after these payloads were appended in turn.
pub open spec fn with_payloads(
    spool: Seq<Filled>,
    checkpoint: SpoolPosition,
    payloads: Seq<Seq<u8>>,
) -> Seq<Filled>
    decreases payloads.len(),
{
    if payloads.len() == 0 {
        spool
    } else {
        with_payload(
            with_payloads(spool, checkpoint, payloads.drop_last()),
            checkpoint,
            payloads.last(),
        )
    }
}

/// The positions that were given out for them.
pub open spec fn positions(
    spool: Seq<Filled>,
    checkpoint: SpoolPosition,
    payloads: Seq<Seq<u8>>,
) -> Seq<SpoolPosition>
    decreases payloads.len(),
{
    if payloads.len() == 0 {
        Seq::empty()
    } else {
        positions(spool, checkpoint, payloads.drop_last()).push(
            frame_end(
                next_place(
                    with_payloads(spool, checkpoint, payloads.drop_last()),
                    checkpoint,
                    payloads.last(),
                ),
                frame(payloads.last()).len(),
            ),
        )
    }
}

/// The highest number that a segment of the spool has had.
pub open spec fn highest(spool: Seq<Filled>, checkpoint: SpoolPosition) -> u64 {
    if spool.len() == 0 {
        checkpoint.segment
    } else {
        spool.last().number
    }
}

proof fn lemma_written_one_more(payloads: Seq<Seq<u8>>, payload: Seq<u8>)
    ensures
        written(payloads.push(payload)).len() == written(payloads).len() + frame(payload).len(),
        written(seq![payload]) == frame(payload),
        spans(payloads.push(payload), 0) == spans(payloads, 0) + spans(
            seq![payload],
            written(payloads).len(),
        ),
        spans(seq![payload], written(payloads).len()) == seq![
            FrameSpan {
                start: written(payloads).len() as usize,
                end: (written(payloads).len() + frame(payload).len()) as usize,
                intact: true,
            },
        ],
{
    let one = seq![payload];
    reveal_with_fuel(written, 2);
    reveal_with_fuel(spans, 2);
    assert(payloads.push(payload) =~= payloads + one);
    lemma_written_in_two_parts(payloads, one);
    lemma_spans_in_two_parts(payloads, one, 0);
    assert(one.drop_first() =~= Seq::<Seq<u8>>::empty());
    assert(written(one) =~= frame(payload));
    assert(spans(one, written(payloads).len()) =~= seq![
        FrameSpan {
            start: written(payloads).len() as usize,
            end: (written(payloads).len() + frame(payload).len()) as usize,
            intact: true,
        },
    ]);
}

/// A payload that is appended comes behind all others, and ends where the spool says.
#[verifier::rlimit(60)]
#[verifier::spinoff_prover]
proof fn lemma_append(spool: Seq<Filled>, checkpoint: SpoolPosition, payload: Seq<u8>)
    requires
        sound(spool),
        given_out(checkpoint, spool),
        payload.len() <= MAX_FRAME_SIZE,
        highest(spool, checkpoint) < u64::MAX,
    ensures
        ({
            let after = with_payload(spool, checkpoint, payload);
            let place = next_place(spool, checkpoint, payload);
            let size = frame(payload).len();
            let added = ReplayFrame {
                segment: place.segment,
                span: FrameSpan {
                    start: place.offset as usize,
                    end: (place.offset + size) as usize,
                    intact: true,
                },
            };
            &&& sound(after)
            &&& given_out(checkpoint, after)
            &&& highest(after, checkpoint) <= highest(spool, checkpoint) + 1
            &&& frames_in(after) == frames_in(spool).push(added)
            &&& payloads_in(after) == payloads_in(spool).push(payload)
            &&& added.behind_it() == frame_end(place, size)
            &&& checkpoint.before(added.behind_it())
            &&& after.len() > 0
            &&& after.last().number == place.segment
            &&& written(after.last().payloads).len() == place.offset + size
        }),
{
    let after = with_payload(spool, checkpoint, payload);
    let place = next_place(spool, checkpoint, payload);
    let size = frame(payload).len();
    assert(size == FRAME_HEADER_SIZE + payload.len());
    let one = seq![payload];
    assert(one.drop_first() =~= Seq::<Seq<u8>>::empty());
    if spool.len() > 0 {
        assert(spool.last().sound());
        lemma_segment_is_short(spool.last());
    }
    if spool.len() > 0 && place.segment == spool.last().number {
        let last = spool.last();
        let filled = after.last();
        lemma_written_one_more(last.payloads, payload);
        let front = spool.drop_last();
        assert(spool =~= front + seq![last]);
        assert(after =~= front + seq![filled]);
        lemma_frames_in_two_parts(front, seq![last]);
        lemma_frames_in_two_parts(front, seq![filled]);
        lemma_frames_of_one(last);
        lemma_frames_of_one(filled);
        let at = written(last.payloads).len();
        assert(filled.frames() =~= last.frames() + frames_of(last.number, spans(one, at)));
        assert(frames_in(after) =~= frames_in(spool).push(
            ReplayFrame {
                segment: place.segment,
                span: FrameSpan { start: at as usize, end: (at + size) as usize, intact: true },
            },
        ));
        assert(payloads_in(after) =~= payloads_in(spool).push(payload));
        assert(all_fit(filled.payloads)) by {
            assert forall|i: int| 0 <= i < filled.payloads.len() implies (
            #[trigger] filled.payloads[i]).len() <= MAX_FRAME_SIZE by {
                if i < last.payloads.len() {
                    assert(filled.payloads[i] == last.payloads[i]);
                }
            }
        }
        if at == 0 && last.payloads.len() > 0 {
            assert(frame(last.payloads[0]).len() >= FRAME_HEADER_SIZE);
        }
        assert(filled.sound());
        assert forall|k: int| 0 <= k < after.len() implies (#[trigger] after[k]).sound() && after[k].number
            == spool[k].number && (after[k].number == checkpoint.segment ==> after[k].ends_at(
            checkpoint.offset,
        )) by {
            assert(spool[k].sound());
            if k < after.len() - 1 {
                assert(after[k] == spool[k]);
            } else if spool[k].number == checkpoint.segment {
                assert(spool[k].ends_at(checkpoint.offset));
                let n = choose|n: int|
                    0 <= n <= last.payloads.len() && checkpoint.offset == #[trigger] written(
                        last.payloads.take(n),
                    ).len();
                assert(filled.payloads.take(n) =~= last.payloads.take(n));
                lemma_part_is_shorter(last.payloads, n);
                assert(filled.ends_at(checkpoint.offset));
            }
        }
        assert(spool[spool.len() - 1].number == last.number);
        if last.number == checkpoint.segment {
            assert(last.ends_at(checkpoint.offset));
            let n = choose|n: int|
                0 <= n <= last.payloads.len() && checkpoint.offset == #[trigger] written(
                    last.payloads.take(n),
                ).len();
            lemma_part_is_shorter(last.payloads, n);
        }
    } else {
        let filled = after.last();
        lemma_written_one_more(Seq::empty(), payload);
        assert(after =~= spool + seq![filled]);
        lemma_frames_in_two_parts(spool, seq![filled]);
        lemma_frames_of_one(filled);
        assert(Seq::<Seq<u8>>::empty().push(payload) =~= one);
        assert(frames_in(after) =~= frames_in(spool).push(
            ReplayFrame {
                segment: place.segment,
                span: FrameSpan { start: 0, end: size as usize, intact: true },
            },
        ));
        assert(payloads_in(after) =~= payloads_in(spool).push(payload));
        assert(all_fit(filled.payloads));
        assert(filled.sound());
        assert(place.segment == highest(spool, checkpoint) + 1);
        assert forall|k: int| 0 <= k < after.len() implies (#[trigger] after[k]).sound() && (k
            < spool.len() ==> after[k] == spool[k]) by {
            if k < spool.len() {
                assert(spool[k].sound());
            }
        }
    }
}

/// A run of payloads that were appended.
proof fn lemma_appends(
    spool: Seq<Filled>,
    checkpoint: SpoolPosition,
    payloads: Seq<Seq<u8>>,
)
    requires
        sound(spool),
        given_out(checkpoint, spool),
        all_fit(payloads),
        highest(spool, checkpoint) + payloads.len() <= u64::MAX,
    ensures
        ({
            let after = with_payloads(spool, checkpoint, payloads);
            let before = frames_in(spool).len();
            let given = positions(spool, checkpoint, payloads);
            &&& sound(after)
            &&& given_out(checkpoint, after)
            &&& highest(after, checkpoint) <= highest(spool, checkpoint) + payloads.len()
            &&& frames_in(after).len() == before + payloads.len()
            &&& frames_in(after).take(before as int) == frames_in(spool)
            &&& payloads_in(after) == payloads_in(spool) + payloads
            &&& given.len() == payloads.len()
            &&& forall|i: int|
                0 <= i < payloads.len() ==> {
                    &&& (#[trigger] frames_in(after)[before + i]).behind_it() == given[i]
                    &&& frames_in(after)[before + i].span.intact
                    &&& checkpoint.before(given[i])
                }
            &&& payloads.len() > 0 ==> after.len() > 0 && given.last() == (SpoolPosition {
                segment: after.last().number,
                offset: written(after.last().payloads).len() as u64,
            })
        }),
    decreases payloads.len(),
{
    let before = frames_in(spool).len();
    if payloads.len() == 0 {
        assert(frames_in(spool).take(before as int) =~= frames_in(spool));
        assert(payloads_in(spool) + payloads =~= payloads_in(spool));
    } else {
        let front = payloads.drop_last();
        assert(all_fit(front)) by {
            assert forall|i: int| 0 <= i < front.len() implies (#[trigger] front[i]).len()
                <= MAX_FRAME_SIZE by {
                assert(front[i] == payloads[i]);
            }
        }
        lemma_appends(spool, checkpoint, front);
        let middle = with_payloads(spool, checkpoint, front);
        let last = payloads[payloads.len() - 1];
        lemma_append(middle, checkpoint, last);
        let after = with_payloads(spool, checkpoint, payloads);
        let given = positions(spool, checkpoint, payloads);
        assert(frames_in(after).take(before as int) =~= frames_in(middle).take(before as int));
        assert((payloads_in(spool) + front).push(last) =~= payloads_in(spool) + payloads);
        lemma_segment_is_short(after.last());
        assert forall|i: int| 0 <= i < payloads.len() implies {
            &&& (#[trigger] frames_in(after)[before + i]).behind_it() == given[i]
            &&& frames_in(after)[before + i].span.intact
            &&& checkpoint.before(given[i])
        } by {
            if i < front.len() {
                assert(frames_in(after)[before + i] == frames_in(middle)[before + i]);
                assert(given[i] == positions(spool, checkpoint, front)[i]);
            }
        }
    }
}

/// Frames come in the order in which they end, no two at one position, and each in a
/// segment of the spool.
pub proof fn lemma_frames_come_in_order(spool: Seq<Filled>)
    requires
        sound(spool),
    ensures
        forall|i: int|
            0 <= i < frames_in(spool).len() ==> exists|k: int|
                0 <= k < spool.len() && (#[trigger] spool[k]).number == (
                #[trigger] frames_in(spool)[i]).segment,
        forall|i: int, j: int|
            0 <= i < j < frames_in(spool).len() ==> (#[trigger] frames_in(
                spool,
            )[i]).behind_it().before((#[trigger] frames_in(spool)[j]).behind_it()),
    decreases spool.len(),
{
    if spool.len() > 0 {
        let rest = spool.drop_first();
        let first = spool[0];
        assert forall|k: int| 0 <= k < rest.len() implies (#[trigger] rest[k]).sound()
            && first.number < rest[k].number by {
            assert(rest[k] == spool[k + 1]);
            assert(spool[k + 1].sound());
        }
        assert(sound(rest));
        lemma_frames_come_in_order(rest);
        lemma_segment_is_short(first);
        lemma_spans_in_order(first.payloads, 0);
        let n = first.frames().len() as int;
        let all = frames_in(spool);
        assert forall|i: int| 0 <= i < all.len() implies if i < n {
            &&& #[trigger] all[i] == first.frames()[i]
            &&& all[i].segment == first.number
            &&& all[i].span == spans(first.payloads, 0)[i]
        } else {
            &&& all[i] == frames_in(rest)[i - n]
            &&& first.number < all[i].segment
        } by {
            if i >= n {
                let k = choose|k: int|
                    0 <= k < rest.len() && (#[trigger] rest[k]).number == frames_in(
                        rest,
                    )[i - n].segment;
                assert(first.number < rest[k].number);
            }
        }
        assert forall|i: int| 0 <= i < all.len() implies exists|k: int|
            0 <= k < spool.len() && (#[trigger] spool[k]).number == (
            #[trigger] all[i]).segment by {
            if i < n {
                assert(spool[0].number == all[i].segment);
            } else {
                let k = choose|k: int|
                    0 <= k < rest.len() && (#[trigger] rest[k]).number == frames_in(
                        rest,
                    )[i - n].segment;
                assert(spool[k + 1] == rest[k]);
            }
        }
        assert forall|i: int, j: int| 0 <= i < j < all.len() implies (
        #[trigger] all[i]).behind_it().before((#[trigger] all[j]).behind_it()) by {
            if j >= n && i >= n {
                assert(all[i] == frames_in(rest)[i - n]);
                assert(all[j] == frames_in(rest)[j - n]);
            }
        }
    }
}

proof fn lemma_frames_give_payloads(
    disk: Seq<SegmentBytes>,
    spool: Seq<Filled>,
    torn: Seq<u8>,
    from: int,
)
    requires
        sound(spool),
        on_disk(disk, spool, torn),
        0 <= from <= spool.len(),
    ensures
        frames_in(spool.skip(from)).len() == payloads_in(spool.skip(from)).len(),
        forall|i: int|
            0 <= i < payloads_in(spool.skip(from)).len() ==> gives(
                disk,
                #[trigger] frames_in(spool.skip(from))[i],
                payloads_in(spool.skip(from))[i],
            ),
    decreases spool.len() - from,
{
    let rest = spool.skip(from);
    if from < spool.len() {
        let segment = spool[from];
        assert(rest[0] == segment);
        assert(rest.drop_first() =~= spool.skip(from + 1));
        lemma_frames_give_payloads(disk, spool, torn, from + 1);
        assert(segment.sound());
        lemma_segment_is_short(segment);
        lemma_spans_hold_payloads(Seq::empty(), segment.payloads);
        lemma_spans_in_order(segment.payloads, 0);
        assert(Seq::<u8>::empty() + written(segment.payloads) =~= written(segment.payloads));
        let n = segment.payloads.len() as int;
        let bytes = disk[from].bytes@;
        assert(disk[from].number == segment.number);
        assert forall|i: int| 0 <= i < payloads_in(rest).len() implies gives(
            disk,
            #[trigger] frames_in(rest)[i],
            payloads_in(rest)[i],
        ) by {
            if i < n {
                let span = spans(segment.payloads, 0)[i];
                assert(frames_in(rest)[i].span == span);
                assert(frames_in(rest)[i].segment == disk[from].number);
                assert(payload_of(written(segment.payloads), span) == segment.payloads[i]);
                assert(payload_of(bytes, span) =~= payload_of(written(segment.payloads), span));
            } else {
                assert(frames_in(rest)[i] == frames_in(rest.drop_first())[i - n]);
                assert(payloads_in(rest)[i] == payloads_in(rest.drop_first())[i - n]);
            }
        }
    }
}

/// What was appended comes back where `append` said it ends, however many segments it was
/// spread over, and behind what still waited before. Bytes behind it that no frame begins
/// come to nothing: the last segment is cut at the last position that was given out, and
/// what is cut off is put aside only where it begins with a length that no frame has. Once
/// it is cut, the same frames come back again, with nothing left to mend.
pub proof fn lemma_appended_frames_come_back(
    spool: Seq<Filled>,
    checkpoint: SpoolPosition,
    payloads: Seq<Seq<u8>>,
    torn: Seq<u8>,
    disk: Seq<SegmentBytes>,
    mended: Seq<SegmentBytes>,
)
    requires
        sound(spool),
        given_out(checkpoint, spool),
        all_fit(payloads),
        payloads.len() > 0,
        highest(spool, checkpoint) + payloads.len() <= u64::MAX,
        frameless(torn),
        on_disk(disk, with_payloads(spool, checkpoint, payloads), torn),
        on_disk(mended, with_payloads(spool, checkpoint, payloads), Seq::empty()),
    ensures
        ({
            let given = positions(spool, checkpoint, payloads);
            let waited = left_behind(frames_in(spool), checkpoint);
            let n = waited.len() as int;
            let cut = SegmentRepair {
                segment: given.last().segment,
                at: given.last().offset as usize,
                quarantine: reason_of(torn),
            };
            &&& replayed(disk, checkpoint, 0) matches Ok(found) && {
                &&& found.frames.len() == n + payloads.len()
                &&& found.frames.take(n) == waited
                &&& forall|i: int|
                    0 <= i < payloads.len() ==> {
                        &&& (#[trigger] found.frames[n + i]).behind_it() == given[i]
                        &&& found.frames[n + i].span.intact
                        &&& gives(disk, found.frames[n + i], payloads[i])
                        &&& gives(mended, found.frames[n + i], payloads[i])
                    }
                &&& found.repairs == if torn.len() == 0 {
                    Seq::empty()
                } else {
                    seq![cut]
                }
                &&& replayed(mended, checkpoint, 0) == Ok::<ReplayState, SpoolError>(
                    ReplayState { frames: found.frames, repairs: Seq::empty() },
                )
            }
            &&& forall|i: int, j: int|
                0 <= i < j < payloads.len() ==> (#[trigger] given[i]).before(#[trigger] given[j])
            &&& mended.last().bytes@ == disk.last().bytes@.take(cut.at as int)
        }),
{
    let after = with_payloads(spool, checkpoint, payloads);
    let given = positions(spool, checkpoint, payloads);
    let pred = |f: ReplayFrame| checkpoint.before(f.behind_it());
    let before = frames_in(spool).len() as int;
    let waited = left_behind(frames_in(spool), checkpoint);
    let n = waited.len() as int;
    lemma_appends(spool, checkpoint, payloads);
    lemma_replay_gives_what_lies_behind(disk, after, torn, checkpoint);
    lemma_replay_gives_what_lies_behind(mended, after, Seq::empty(), checkpoint);
    lemma_frames_come_in_order(after);
    lemma_frames_give_payloads(disk, after, torn, 0);
    lemma_frames_give_payloads(mended, after, Seq::empty(), 0);
    lemma_frames_give_payloads_count(spool);
    assert(after.skip(0) =~= after);
    let all = frames_in(after);
    let fresh = all.skip(before);
    assert(all =~= frames_in(spool) + fresh);
    Seq::filter_distributes_over_add(frames_in(spool), fresh, pred);
    assert forall|i: int| 0 <= i < fresh.len() implies pred(#[trigger] fresh[i]) by {
        assert(fresh[i] == all[before + i]);
    }
    lemma_filter_keeps_all(fresh, pred);
    let found = replayed(disk, checkpoint, 0)->Ok_0;
    assert(found.frames == waited + fresh);
    assert(found.frames.take(n) =~= waited);
    assert forall|i: int| 0 <= i < payloads.len() implies {
        &&& (#[trigger] found.frames[n + i]).behind_it() == given[i]
        &&& found.frames[n + i].span.intact
        &&& gives(disk, found.frames[n + i], payloads[i])
        &&& gives(mended, found.frames[n + i], payloads[i])
    } by {
        assert(found.frames[n + i] == all[before + i]);
        assert(payloads_in(after)[before + i] == payloads[i]);
    }
    assert forall|i: int, j: int| 0 <= i < j < payloads.len() implies (#[trigger] given[i]).before(
        #[trigger] given[j],
    ) by {
        assert(all[before + i].behind_it() == given[i]);
        assert(all[before + j].behind_it() == given[j]);
    }
    assert(after.last().sound());
    lemma_segment_is_short(after.last());
    let last = disk.len() - 1;
    assert(disk[last].bytes@ == written(after.last().payloads) + torn);
    assert(mended[last].bytes@ =~= written(after.last().payloads));
    assert(mended[last].bytes@ =~= disk[last].bytes@.take(given.last().offset as int));
}

proof fn lemma_frames_give_payloads_count(spool: Seq<Filled>)
    requires
        sound(spool),
    ensures
        frames_in(spool).len() == payloads_in(spool).len(),
    decreases spool.len(),
{
    if spool.len() > 0 {
        let rest = spool.drop_first();
        assert forall|k: int| 0 <= k < rest.len() implies (#[trigger] rest[k]).sound() by {
            assert(rest[k] == spool[k + 1]);
        }
        lemma_frames_give_payloads_count(rest);
        assert(spool[0].sound());
        lemma_segment_is_short(spool[0]);
        lemma_spans_in_order(spool[0].payloads, 0);
    }
}

/// How many bytes these frames take up.
pub open spec fn bytes_of(frames: Seq<ReplayFrame>) -> nat
    decreases frames.len(),
{
    if frames.len() == 0 {
        0
    } else {
        (bytes_of(frames.drop_first()) + frames[0].span.end - frames[0].span.start) as nat
    }
}

/// The segments on disk by their lengths.
pub open spec fn lengths(disk: Seq<SegmentBytes>) -> Seq<SegmentLength> {
    disk.map_values(
        |s: SegmentBytes| SegmentLength { number: s.number, length: s.bytes@.len() as u64 },
    )
}

/// The segments on disk by their numbers.
pub open spec fn numbers(disk: Seq<SegmentBytes>) -> Seq<u64> {
    disk.map_values(|s: SegmentBytes| s.number)
}

proof fn lemma_bytes_of_a_segment(number: u64, payloads: Seq<Seq<u8>>, at: nat)
    requires
        at + written(payloads).len() <= usize::MAX,
    ensures
        bytes_of(frames_of(number, spans(payloads, at))) == written(payloads).len(),
    decreases payloads.len(),
{
    if payloads.len() > 0 {
        let end = (at + FRAME_HEADER_SIZE + payloads[0].len()) as nat;
        assert(frame(payloads[0]).len() == FRAME_HEADER_SIZE + payloads[0].len());
        lemma_bytes_of_a_segment(number, payloads.drop_first(), end);
        assert(frames_of(number, spans(payloads, at)).drop_first() =~= frames_of(
            number,
            spans(payloads.drop_first(), end),
        ));
    }
}

proof fn lemma_bytes_in_two_parts(a: Seq<ReplayFrame>, b: Seq<ReplayFrame>)
    requires
        forall|i: int| 0 <= i < a.len() ==> (#[trigger] a[i]).span.start <= a[i].span.end,
    ensures
        bytes_of(a + b) == bytes_of(a) + bytes_of(b),
    decreases a.len(),
{
    if a.len() == 0 {
        assert(a + b =~= b);
    } else {
        let rest = a.drop_first();
        assert((a + b).drop_first() =~= rest + b);
        assert forall|i: int| 0 <= i < rest.len() implies (#[trigger] rest[i]).span.start
            <= rest[i].span.end by {
            assert(rest[i] == a[i + 1]);
        }
        lemma_bytes_in_two_parts(rest, b);
        assert(a[0].span.start <= a[0].span.end);
    }
}

proof fn lemma_waiting_in_two_parts(
    a: Seq<SegmentLength>,
    b: Seq<SegmentLength>,
    checkpoint: SpoolPosition,
)
    ensures
        all_waiting(a + b, checkpoint) == all_waiting(a, checkpoint) + all_waiting(b, checkpoint),
    decreases b.len(),
{
    if b.len() == 0 {
        assert(a + b =~= a);
    } else {
        assert((a + b).drop_last() =~= a + b.drop_last());
        lemma_waiting_in_two_parts(a, b.drop_last(), checkpoint);
    }
}

/// What waits in one segment are the bytes of its frames behind the checkpoint.
proof fn lemma_waiting_in_a_segment(segment: Filled, checkpoint: SpoolPosition)
    requires
        segment.sound(),
        segment.number == checkpoint.segment ==> segment.ends_at(checkpoint.offset),
    ensures
        waiting(
            SegmentLength {
                number: segment.number,
                length: written(segment.payloads).len() as u64,
            },
            checkpoint,
        ) == bytes_of(left_behind(segment.frames(), checkpoint)),
        forall|i: int|
            0 <= i < left_behind(segment.frames(), checkpoint).len() ==> (#[trigger] left_behind(
                segment.frames(),
                checkpoint,
            )[i]).span.start <= left_behind(segment.frames(), checkpoint)[i].span.end,
{
    lemma_segment_is_short(segment);
    if segment.number == checkpoint.segment {
        let n = choose|n: int|
            0 <= n <= segment.payloads.len() && checkpoint.offset == #[trigger] written(
                segment.payloads.take(n),
            ).len();
        let left = segment.payloads.skip(n);
        lemma_frames_behind_a_checkpoint(segment, checkpoint, n);
        lemma_part_is_shorter(segment.payloads, n);
        lemma_bytes_of_a_segment(segment.number, left, checkpoint.offset as nat);
        lemma_spans_in_order(left, checkpoint.offset as nat);
        let kept = left_behind(segment.frames(), checkpoint);
        assert forall|i: int| 0 <= i < kept.len() implies (#[trigger] kept[i]).span.start
            <= kept[i].span.end by {
            assert(kept[i].span == spans(left, checkpoint.offset as nat)[i]);
        }
    } else {
        lemma_frames_of_another_segment(segment, checkpoint);
        lemma_bytes_of_a_segment(segment.number, segment.payloads, 0);
        lemma_spans_in_order(segment.payloads, 0);
        let kept = left_behind(segment.frames(), checkpoint);
        assert forall|i: int| 0 <= i < kept.len() implies (#[trigger] kept[i]).span.start
            <= kept[i].span.end by {
            assert(kept[i].span == spans(segment.payloads, 0)[i]);
        }
    }
}

/// The backlog is made of the frames that replay gives.
pub proof fn lemma_backlog_is_what_is_replayed(
    disk: Seq<SegmentBytes>,
    spool: Seq<Filled>,
    checkpoint: SpoolPosition,
)
    requires
        sound(spool),
        given_out(checkpoint, spool),
        on_disk(disk, spool, Seq::empty()),
    ensures
        all_waiting(lengths(disk), checkpoint) == bytes_of(
            left_behind(frames_in(spool), checkpoint),
        ),
{
    lemma_backlog_from(disk, spool, checkpoint, 0);
    assert(disk.skip(0) =~= disk);
    assert(spool.skip(0) =~= spool);
}

proof fn lemma_backlog_from(
    disk: Seq<SegmentBytes>,
    spool: Seq<Filled>,
    checkpoint: SpoolPosition,
    i: int,
)
    requires
        sound(spool),
        given_out(checkpoint, spool),
        on_disk(disk, spool, Seq::empty()),
        0 <= i <= spool.len(),
    ensures
        all_waiting(lengths(disk.skip(i)), checkpoint) == bytes_of(
            left_behind(frames_in(spool.skip(i)), checkpoint),
        ),
    decreases spool.len() - i,
{
    let pred = |f: ReplayFrame| checkpoint.before(f.behind_it());
    let rest = spool.skip(i);
    if i == spool.len() {
        lemma_filter_keeps_none(frames_in(rest), pred);
        assert(lengths(disk.skip(i)).len() == 0);
    } else {
        let segment = spool[i];
        let here = SegmentLength {
            number: segment.number,
            length: written(segment.payloads).len() as u64,
        };
        assert(segment.sound());
        lemma_backlog_from(disk, spool, checkpoint, i + 1);
        assert(rest[0] == segment);
        assert(rest.drop_first() =~= spool.skip(i + 1));
        Seq::filter_distributes_over_add(segment.frames(), frames_in(rest.drop_first()), pred);
        lemma_waiting_in_a_segment(segment, checkpoint);
        lemma_bytes_in_two_parts(
            left_behind(segment.frames(), checkpoint),
            left_behind(frames_in(rest.drop_first()), checkpoint),
        );
        assert(disk[i].number == segment.number);
        assert(disk[i].bytes@ =~= written(segment.payloads));
        assert(lengths(disk.skip(i)) =~= seq![here] + lengths(disk.skip(i + 1)));
        lemma_waiting_in_two_parts(seq![here], lengths(disk.skip(i + 1)), checkpoint);
        assert(seq![here].drop_last() =~= Seq::<SegmentLength>::empty());
        reveal_with_fuel(all_waiting, 2);
    }
}

/// The first `k` segments are those before a position.
proof fn lemma_done_with_is_the_front(disk: Seq<SegmentBytes>, position: SpoolPosition, k: int)
    requires
        0 <= k <= disk.len(),
        forall|j: int|
            0 <= j < disk.len() ==> ((#[trigger] disk[j]).number < position.segment <==> j < k),
    ensures
        done_with(numbers(disk), position) == numbers(disk).take(k),
{
    let pred = |segment: u64| segment < position.segment;
    let all = numbers(disk);
    let front = all.take(k);
    let back = all.skip(k);
    assert(all =~= front + back);
    Seq::filter_distributes_over_add(front, back, pred);
    assert forall|j: int| 0 <= j < front.len() implies pred(#[trigger] front[j]) by {
        assert(front[j] == disk[j].number);
    }
    assert forall|j: int| 0 <= j < back.len() implies !pred(#[trigger] back[j]) by {
        assert(back[j] == disk[j + k].number);
    }
    lemma_filter_keeps_all(front, pred);
    lemma_filter_keeps_none(back, pred);
    assert(front + Seq::<u64>::empty() =~= front);
}

/// An acknowledgement that does not go backwards takes from what is replayed the frames up
/// to its position and no others, whichever segment it is in. The `k` segments before it
/// are removed, and nothing but the frames that are left makes up the backlog.
pub proof fn lemma_acknowledged_frames_leave_the_spool(
    disk: Seq<SegmentBytes>,
    spool: Seq<Filled>,
    current: SpoolPosition,
    position: SpoolPosition,
    k: int,
)
    requires
        sound(spool),
        on_disk(disk, spool, Seq::empty()),
        given_out(current, spool),
        given_out(position, spool),
        !position.before(current),
        0 <= k <= disk.len(),
        forall|j: int|
            0 <= j < disk.len() ==> ((#[trigger] disk[j]).number < position.segment <==> j < k),
    ensures
        done_with(numbers(disk), position) == numbers(disk).take(k),
        replayed(disk, current, 0) matches Ok(before) && {
            let left = left_behind(before.frames, position);
            &&& replayed(disk.skip(k), position, 0) == Ok::<ReplayState, SpoolError>(
                ReplayState { frames: left, repairs: Seq::empty() },
            )
            &&& all_waiting(lengths(disk.skip(k)), position) == bytes_of(left)
        },
{
    let passed = spool.take(k);
    let kept = spool.skip(k);
    let pred = |f: ReplayFrame| position.before(f.behind_it());
    let wide = |f: ReplayFrame| current.before(f.behind_it());
    lemma_done_with_is_the_front(disk, position, k);
    lemma_replay_gives_what_lies_behind(disk, spool, Seq::empty(), current);
    lemma_filter_of_filter(frames_in(spool), wide, pred);
    assert forall|j: int| 0 <= j < kept.len() implies #[trigger] kept[j] == spool[j + k] by {}
    assert(sound(kept)) by {
        assert forall|j: int| 0 <= j < kept.len() implies (#[trigger] kept[j]).sound() by {
            assert(spool[j + k].sound());
        }
    }
    assert(given_out(position, kept)) by {
        assert forall|j: int|
            0 <= j < kept.len() && (#[trigger] kept[j]).number
                == position.segment implies kept[j].ends_at(position.offset) by {
            assert(spool[j + k].ends_at(position.offset));
        }
    }
    assert(on_disk(disk.skip(k), kept, Seq::empty())) by {
        assert forall|j: int| 0 <= j < disk.skip(k).len() implies {
            &&& (#[trigger] disk.skip(k)[j]).number == kept[j].number
            &&& disk.skip(k)[j].bytes@ == written(kept[j].payloads) + Seq::<u8>::empty()
        } by {
            assert(disk.skip(k)[j] == disk[j + k]);
        }
    }
    lemma_replay_gives_what_lies_behind(disk.skip(k), kept, Seq::empty(), position);
    lemma_backlog_is_what_is_replayed(disk.skip(k), kept, position);
    assert(spool =~= passed + kept);
    lemma_frames_in_two_parts(passed, kept);
    Seq::filter_distributes_over_add(frames_in(passed), frames_in(kept), pred);
    assert(sound(passed)) by {
        assert forall|j: int| 0 <= j < passed.len() implies (#[trigger] passed[j]).sound() by {
            assert(spool[j].sound());
        }
    }
    lemma_frames_come_in_order(passed);
    assert forall|i: int| 0 <= i < frames_in(passed).len() implies !pred(
        #[trigger] frames_in(passed)[i],
    ) by {
        let j = choose|j: int|
            0 <= j < passed.len() && (#[trigger] passed[j]).number == frames_in(passed)[i].segment;
        assert(disk[j].number == spool[j].number);
    }
    lemma_filter_keeps_none(frames_in(passed), pred);
    assert(Seq::<ReplayFrame>::empty() + left_behind(frames_in(kept), position) =~= left_behind(
        frames_in(kept),
        position,
    ));
}

/// Every frame ends at a position that can be acknowledged.
pub proof fn lemma_frame_ends_are_given_out(spool: Seq<Filled>, i: int)
    requires
        sound(spool),
        0 <= i < frames_in(spool).len(),
    ensures
        given_out(frames_in(spool)[i].behind_it(), spool),
    decreases spool.len(),
{
    let position = frames_in(spool)[i].behind_it();
    let first = spool[0];
    let rest = spool.drop_first();
    let n = first.frames().len() as int;
    assert(first.sound());
    lemma_segment_is_short(first);
    lemma_spans_in_order(first.payloads, 0);
    assert forall|k: int| 0 <= k < rest.len() implies (#[trigger] rest[k]).sound() && rest[k]
        == spool[k + 1] && first.number < rest[k].number by {
        assert(spool[k + 1].sound());
    }
    if i < n {
        let done = first.payloads.take(i + 1);
        assert(frames_in(spool)[i] == first.frames()[i]);
        assert(frames_in(spool)[i].span == spans(first.payloads, 0)[i]);
        lemma_part_is_shorter(first.payloads, i + 1);
        assert(done + first.payloads.skip(i + 1) =~= first.payloads);
        lemma_spans_in_two_parts(done, first.payloads.skip(i + 1), 0);
        lemma_spans_in_order(done, 0);
        lemma_last_frame_ends_at_checkpoint(done, 0);
        assert(spans(first.payloads, 0)[i] == spans(done, 0)[i]);
        assert(position.offset == written(first.payloads.take(i + 1)).len());
        assert(first.ends_at(position.offset));
        assert forall|k: int|
            0 <= k < spool.len() && (#[trigger] spool[k]).number
                == position.segment implies spool[k].ends_at(position.offset) by {
            if k > 0 {
                assert(rest[k - 1] == spool[k]);
            }
        }
    } else {
        assert(frames_in(spool)[i] == frames_in(rest)[i - n]);
        assert(sound(rest));
        lemma_frame_ends_are_given_out(rest, i - n);
        lemma_frames_come_in_order(rest);
        let j = choose|j: int|
            0 <= j < rest.len() && (#[trigger] rest[j]).number == frames_in(rest)[i - n].segment;
        assert(first.number < rest[j].number);
        assert forall|k: int|
            0 <= k < spool.len() && (#[trigger] spool[k]).number
                == position.segment implies spool[k].ends_at(position.offset) by {
            if k > 0 {
                assert(rest[k - 1] == spool[k]);
            }
        }
        assert(rest.last() == spool.last());
    }
}

/// Once the last frame is acknowledged, nothing is replayed and nothing waits.
pub proof fn lemma_last_acknowledgement_empties_the_spool(
    disk: Seq<SegmentBytes>,
    spool: Seq<Filled>,
)
    requires
        sound(spool),
        on_disk(disk, spool, Seq::empty()),
        frames_in(spool).len() > 0,
    ensures
        ({
            let position = frames_in(spool).last().behind_it();
            &&& replayed(disk, position, 0) == Ok::<ReplayState, SpoolError>(
                ReplayState { frames: Seq::empty(), repairs: Seq::empty() },
            )
            &&& all_waiting(lengths(disk), position) == 0
        }),
{
    let all = frames_in(spool);
    let position = all.last().behind_it();
    let pred = |f: ReplayFrame| position.before(f.behind_it());
    lemma_frame_ends_are_given_out(spool, all.len() - 1);
    lemma_replay_gives_what_lies_behind(disk, spool, Seq::empty(), position);
    lemma_backlog_is_what_is_replayed(disk, spool, position);
    lemma_frames_come_in_order(spool);
    assert forall|i: int| 0 <= i < all.len() implies !pred(#[trigger] all[i]) by {
        if i < all.len() - 1 {
            assert(all[i].behind_it().before(all[all.len() - 1].behind_it()));
        }
    }
    lemma_filter_keeps_none(all, pred);
}

} // verus!
