use voipswitchd::call::cdr_spool::{
    acknowledge, backlog_bytes, encode_frame, end_of_frame, judge_frame, parse_segment_name,
    place_frame, quarantine_file_name, replay, segment_file_name, FrameVerdict, SegmentBytes,
    SegmentLength, SpoolError, SpoolPosition, FRAME_HEADER_SIZE, MAX_FRAME_SIZE,
    SEGMENT_SIZE_LIMIT,
};
use voipswitchd::call::cdr_writer::{
    after_failed_attempt, retry_delay_ms, CdrSpoolLimits, DomainWorker, RetryDecision,
    SpoolAdmission, WorkerAction, WorkerEvent, MAX_RETRY_DELAY_MS, MIB,
};

const START: SpoolPosition = SpoolPosition {
    segment: 1,
    offset: 0,
};

/// A spool in memory: one segment, a checkpoint.
struct Spool {
    segment: SegmentBytes,
    checkpoint: SpoolPosition,
}

impl Spool {
    fn open() -> Self {
        Spool {
            segment: SegmentBytes {
                number: 1,
                bytes: Vec::new(),
            },
            checkpoint: START,
        }
    }

    fn append(&mut self, payload: &[u8]) -> SpoolPosition {
        let frame = encode_frame(payload).unwrap();
        let length = self.segment.bytes.len() as u64;
        let place = place_frame(Some((1, length)), self.checkpoint, frame.len());
        assert_eq!(place.segment, 1);
        assert_eq!(place.offset, length);
        self.segment.bytes.extend(&frame);
        end_of_frame(place, frame.len())
    }

    fn replay(&self) -> Vec<SpoolPosition> {
        let segments = vec![SegmentBytes {
            number: 1,
            bytes: self.segment.bytes.clone(),
        }];
        replay(&segments, self.checkpoint)
            .unwrap()
            .frames
            .iter()
            .map(|frame| frame.end())
            .collect()
    }

    fn acknowledge(&mut self, position: SpoolPosition) {
        acknowledge(self.checkpoint, position, &vec![1]).unwrap();
        self.checkpoint = position;
    }

    fn backlog(&self) -> u64 {
        backlog_bytes(
            &vec![SegmentLength {
                number: 1,
                length: self.segment.bytes.len() as u64,
            }],
            self.checkpoint,
        )
    }
}

#[test]
fn appends_replays_and_checkpoints_frames() {
    let mut spool = Spool::open();
    let first = spool.append(b"call-1");
    let second = spool.append(b"call-2");
    assert!(spool.backlog() > 0);

    let entries = spool.replay();
    assert_eq!(entries.len(), 2);
    assert_eq!(entries[0], first);
    assert_eq!(entries[1], second);
    spool.acknowledge(first);
    let entries = spool.replay();
    assert_eq!(entries.len(), 1);
    assert_eq!(entries[0], second);
    spool.acknowledge(second);
    assert_eq!(spool.backlog(), 0);
}

#[test]
fn truncates_an_incomplete_tail_without_replaying_it() {
    let mut spool = Spool::open();
    let valid = spool.append(b"call-1");
    spool.segment.bytes.extend([1, 2, 3, 4]);

    assert_eq!(spool.replay().len(), 1);
    let segments = vec![SegmentBytes {
        number: 1,
        bytes: spool.segment.bytes.clone(),
    }];
    let repairs = replay(&segments, START).unwrap().repairs;
    assert_eq!(repairs.len(), 1);
    assert_eq!(repairs[0].segment, 1);
    assert_eq!(repairs[0].at as u64, valid.offset);
    assert!(repairs[0].quarantine.is_none());
}

#[test]
fn frame_holds_length_checksum_and_payload() {
    let frame = encode_frame(b"123456789").unwrap();
    assert_eq!(frame.len(), FRAME_HEADER_SIZE + 9);
    assert_eq!(&frame[0..4], &9_u32.to_le_bytes());
    assert_eq!(&frame[4..8], &0xcbf4_3926_u32.to_le_bytes());
    assert_eq!(&frame[8..], b"123456789");
}

#[test]
fn oversized_frame_is_refused() {
    let payload = vec![0_u8; MAX_FRAME_SIZE + 1];
    assert_eq!(
        encode_frame(&payload),
        Err(SpoolError::FrameTooLarge(MAX_FRAME_SIZE + 1))
    );
}

#[test]
fn damaged_frame_is_not_intact() {
    let mut frame = encode_frame(b"call-1").unwrap();
    *frame.last_mut().unwrap() ^= 1;
    let segments = vec![SegmentBytes {
        number: 1,
        bytes: frame,
    }];
    let found = replay(&segments, START).unwrap();
    assert_eq!(found.frames.len(), 1);
    assert!(!found.frames[0].span.intact);
}

#[test]
fn unfinished_frame_in_a_closed_segment_is_kept_aside() {
    let segments = vec![
        SegmentBytes {
            number: 1,
            bytes: vec![9, 0, 0, 0, 1],
        },
        SegmentBytes {
            number: 2,
            bytes: encode_frame(b"call-2").unwrap(),
        },
    ];
    let found = replay(&segments, START).unwrap();
    assert_eq!(found.frames.len(), 1);
    assert_eq!(found.frames[0].segment, 2);
    assert_eq!(found.repairs.len(), 1);
    assert!(found.repairs[0].quarantine.is_some());
}

#[test]
fn frame_is_judged_by_checksum_then_content() {
    assert!(matches!(judge_frame(true, Ok(1)), FrameVerdict::Write));
    assert!(matches!(
        judge_frame(false, Ok(1)),
        FrameVerdict::Quarantine { .. }
    ));
    assert!(matches!(
        judge_frame(true, Ok(2)),
        FrameVerdict::Quarantine { .. }
    ));
    assert!(matches!(
        judge_frame(true, Err("no record".to_string())),
        FrameVerdict::Quarantine { .. }
    ));
}

#[test]
fn full_segment_is_followed_by_the_next() {
    let place = place_frame(Some((4, SEGMENT_SIZE_LIMIT - 10)), START, 11);
    assert_eq!(
        place,
        SpoolPosition {
            segment: 5,
            offset: 0
        }
    );
    let fits = place_frame(Some((4, SEGMENT_SIZE_LIMIT - 10)), START, 10);
    assert_eq!(fits.segment, 4);
}

#[test]
fn checkpoint_never_moves_back() {
    let ahead = SpoolPosition {
        segment: 2,
        offset: 10,
    };
    assert_eq!(
        acknowledge(ahead, START, &vec![1, 2]),
        Err(SpoolError::CheckpointMovesBackwards)
    );
    assert_eq!(acknowledge(START, ahead, &vec![1, 2]), Ok(vec![1]));
}

#[test]
fn checkpoint_beyond_its_segment_is_refused() {
    let segments = vec![SegmentBytes {
        number: 1,
        bytes: vec![0; 3],
    }];
    let beyond = SpoolPosition {
        segment: 1,
        offset: 4,
    };
    assert_eq!(
        SpoolError::CheckpointOutOfRange(4, 1, 3).text(),
        "CDR spool checkpoint 4 exceeds segment 1 length 3"
    );
    assert!(matches!(
        replay(&segments, beyond),
        Err(SpoolError::CheckpointOutOfRange(4, 1, 3))
    ));
}

#[test]
fn segment_names_read_back() {
    let name = segment_file_name(42);
    assert_eq!(parse_segment_name(&name), Some(42));
    assert_eq!(parse_segment_name("notes.txt"), None);
    assert_ne!(quarantine_file_name(42, 7), name);
}

fn limits() -> CdrSpoolLimits {
    CdrSpoolLimits {
        warning_mb: 1,
        resume_mb: 2,
        reject_mb: 3,
    }
}

#[test]
fn spool_admission_uses_configured_hysteresis() {
    let mut admission = SpoolAdmission::new(limits());
    admission.update("domain-a", 3 * MIB);
    assert!(!admission.admits_new_call("domain-a"));

    admission.update("domain-a", 2 * MIB);
    assert!(!admission.admits_new_call("domain-a"));
    admission.update("domain-a", 2 * MIB - 1);
    assert!(admission.admits_new_call("domain-a"));
    assert!(admission.admits_new_call("domain-b"));
}

#[test]
fn updated_limits_recalculate_existing_domain_status() {
    let mut admission = SpoolAdmission::new(limits());
    admission.update("domain-a", 3 * MIB);
    assert!(!admission.admits_new_call("domain-a"));

    admission.set_limits(CdrSpoolLimits {
        warning_mb: 3,
        resume_mb: 4,
        reject_mb: 5,
    });
    assert!(admission.admits_new_call("domain-a"));
}

#[test]
fn retries_wait_longer_each_time_and_end() {
    assert_eq!(retry_delay_ms(1), 400);
    assert_eq!(retry_delay_ms(2), 800);
    assert_eq!(retry_delay_ms(20), MAX_RETRY_DELAY_MS);
    assert_eq!(after_failed_attempt(0), RetryDecision::RetryAfterMs(400));
    assert_eq!(after_failed_attempt(4), RetryDecision::GiveUp);
}

#[test]
fn worker_checkpoints_only_what_was_written() {
    let mut worker = DomainWorker::new();
    assert_eq!(worker.step(WorkerEvent::Woken), WorkerAction::Load);
    worker.load(vec![true, false]);
    assert_eq!(
        worker.step(WorkerEvent::Loaded(true)),
        WorkerAction::Persist(0)
    );
    assert_eq!(
        worker.step(WorkerEvent::Persisted(true)),
        WorkerAction::Acknowledge(0)
    );
    assert_eq!(
        worker.step(WorkerEvent::Acknowledged(true)),
        WorkerAction::Acknowledge(1)
    );
    assert_eq!(
        worker.step(WorkerEvent::Acknowledged(true)),
        WorkerAction::Load
    );
    worker.load(vec![true]);
    assert_eq!(
        worker.step(WorkerEvent::Loaded(true)),
        WorkerAction::Persist(0)
    );
    assert!(matches!(
        worker.step(WorkerEvent::Persisted(false)),
        WorkerAction::Rest(_)
    ));
}

/// A spool in memory over several segments.
fn append_to(disk: &mut Vec<SegmentBytes>, payload: &[u8]) -> SpoolPosition {
    let frame = encode_frame(payload).unwrap();
    let last = disk
        .last()
        .map(|segment| (segment.number, segment.bytes.len() as u64));
    let place = place_frame(last, START, frame.len());
    match disk.last_mut() {
        Some(segment) if segment.number == place.segment => segment.bytes.extend(&frame),
        _ => disk.push(SegmentBytes {
            number: place.segment,
            bytes: frame.clone(),
        }),
    }
    end_of_frame(place, frame.len())
}

fn lengths_of(disk: &[SegmentBytes]) -> Vec<SegmentLength> {
    disk.iter()
        .map(|segment| SegmentLength {
            number: segment.number,
            length: segment.bytes.len() as u64,
        })
        .collect()
}

#[test]
fn torn_tail_behind_several_segments_is_cut_off() {
    let mut disk: Vec<SegmentBytes> = Vec::new();
    let large = vec![7_u8; SEGMENT_SIZE_LIMIT as usize - 20];
    let payloads: [&[u8]; 4] = [b"call-1", &large, b"call-3", b"call-4"];
    let given: Vec<SpoolPosition> = payloads
        .iter()
        .map(|payload| append_to(&mut disk, payload))
        .collect();
    assert_eq!(disk.len(), 3);
    for pair in given.windows(2) {
        assert!(pair[0].is_before(pair[1]));
    }
    let half = encode_frame(b"call-5").unwrap();
    disk.last_mut().unwrap().bytes.extend(&half[..10]);

    let found = replay(&disk, START).unwrap();
    let ends: Vec<SpoolPosition> = found.frames.iter().map(|frame| frame.end()).collect();
    assert_eq!(ends, given);
    for (frame, payload) in found.frames.iter().zip(payloads) {
        let segment = disk
            .iter()
            .find(|segment| segment.number == frame.segment)
            .unwrap();
        assert!(frame.span.intact);
        let from = frame.span.start + FRAME_HEADER_SIZE;
        assert_eq!(&segment.bytes[from..frame.span.end], payload);
    }
    assert_eq!(found.repairs.len(), 1);
    let cut = found.repairs[0];
    assert_eq!((cut.segment, cut.at as u64), (given[3].segment, given[3].offset));
    assert!(cut.quarantine.is_none());

    disk.last_mut().unwrap().bytes.truncate(cut.at);
    let again = replay(&disk, START).unwrap();
    assert_eq!(again.frames, found.frames);
    assert!(again.repairs.is_empty());
}

#[test]
fn acknowledging_in_a_later_segment_leaves_the_rest() {
    let mut disk: Vec<SegmentBytes> = Vec::new();
    let large = vec![7_u8; SEGMENT_SIZE_LIMIT as usize - 20];
    append_to(&mut disk, b"call-1");
    append_to(&mut disk, &large);
    let third = append_to(&mut disk, b"call-3");
    let fourth = append_to(&mut disk, b"call-4");
    let numbers: Vec<u64> = disk.iter().map(|segment| segment.number).collect();

    let removed = acknowledge(START, third, &numbers).unwrap();
    assert_eq!(removed, numbers[..2].to_vec());
    disk.retain(|segment| !removed.contains(&segment.number));
    let left = replay(&disk, third).unwrap().frames;
    assert_eq!(left.len(), 1);
    assert_eq!(left[0].end(), fourth);
    assert_eq!(
        backlog_bytes(&lengths_of(&disk), third),
        (FRAME_HEADER_SIZE + 6) as u64
    );
    assert_eq!(
        acknowledge(third, START, &numbers),
        Err(SpoolError::CheckpointMovesBackwards)
    );
    acknowledge(third, fourth, &numbers).unwrap();
    assert!(replay(&disk, fourth).unwrap().frames.is_empty());
    assert_eq!(backlog_bytes(&lengths_of(&disk), fourth), 0);
}

#[test]
fn impossible_length_behind_the_last_frame_is_put_aside() {
    let mut disk: Vec<SegmentBytes> = Vec::new();
    let end = append_to(&mut disk, b"call-1");
    let tail = (MAX_FRAME_SIZE as u32 + 1).to_le_bytes();
    let last = disk.last_mut().unwrap();
    last.bytes.extend(tail);
    last.bytes.extend([0_u8; 40]);
    let found = replay(&disk, START).unwrap();
    assert_eq!(found.frames.len(), 1);
    assert_eq!(found.frames[0].end(), end);
    assert_eq!(found.repairs.len(), 1);
    assert_eq!(found.repairs[0].at as u64, end.offset);
    assert_eq!(
        found.repairs[0].quarantine.map(|reason| reason.text()),
        Some("frame length exceeds maximum".to_string())
    );
    disk.last_mut().unwrap().bytes.truncate(found.repairs[0].at);
    let again = replay(&disk, START).unwrap();
    assert_eq!(again.frames, found.frames);
    assert!(again.repairs.is_empty());
}
