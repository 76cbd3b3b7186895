use voipswitchd::recording::{
    data_size, decode_alaw, decode_mulaw, failed_record, interleave_wav, panic_record, parse_rtp,
    recording_names, safe_component, safe_number, write_wav_header, LocalStamp, Recorder,
    RecordingSession, RecordingSide, RecordingSpec, RecordingTapSender, WavError,
    RECORDING_QUEUE_CAPACITY,
};

const MILLI: u64 = 1_000_000;

fn spec(payload_types: Vec<u8>) -> RecordingSpec {
    RecordingSpec {
        call_id: "call-1".to_string(),
        domain_id: "domain-a".to_string(),
        caller_number: "1001".to_string(),
        callee_number: "1002".to_string(),
        started_at_ms: 1_000,
        recording_dir: "/tmp/recordings".to_string(),
        payload_types,
    }
}

fn speech(timestamp: u32, payload: &[u8]) -> Vec<u8> {
    let mut packet = vec![0x80, 0x00, 0, 1];
    packet.extend(timestamp.to_be_bytes());
    packet.extend([0, 0, 0, 1]);
    packet.extend(payload);
    packet
}

#[test]
fn parses_rtp_and_decodes_g711() {
    let mut packet = vec![0x80, 0x00, 0, 1, 0, 0, 0, 160, 0, 0, 0, 1];
    packet.extend([0xff, 0x7f]);
    let parsed = parse_rtp(&packet).unwrap();
    assert_eq!(parsed.payload_type, 0);
    assert_eq!(parsed.timestamp, 160);
    assert_eq!(parsed.payload.len(), 2);
    assert_eq!(decode_mulaw(0xff), 0);
    assert_ne!(decode_alaw(0xd5), i16::MIN);
}

#[test]
fn decodes_loud_samples() {
    assert_eq!(decode_mulaw(0x00), -32_124);
    assert_eq!(decode_mulaw(0x80), 32_124);
    assert_eq!(decode_alaw(0xd5), 8);
    assert_eq!(decode_alaw(0x55), -8);
}

#[test]
fn sanitizes_recording_file_components() {
    assert_eq!(safe_component("../../1001"), ".._.._1001");
    assert_eq!(safe_number(""), "unknown");
    assert_eq!(safe_component("call:1/2"), "call_1_2");
}

#[test]
fn writes_stereo_wav_header() {
    let bytes = write_wav_header(320);
    assert_eq!(&bytes[0..4], b"RIFF");
    assert_eq!(&bytes[8..12], b"WAVE");
    assert_eq!(u16::from_le_bytes([bytes[22], bytes[23]]), 2);
    assert_eq!(
        u32::from_le_bytes([bytes[24], bytes[25], bytes[26], bytes[27]]),
        8000
    );
}

#[test]
fn wav_header_names_its_sizes() {
    let bytes = write_wav_header(320);
    assert_eq!(bytes.len(), 44);
    assert_eq!(u32::from_le_bytes([bytes[4], bytes[5], bytes[6], bytes[7]]), 356);
    assert_eq!(
        u32::from_le_bytes([bytes[40], bytes[41], bytes[42], bytes[43]]),
        320
    );
    assert_eq!(data_size(80), Ok(320));
    assert_eq!(data_size(u64::MAX), Err(WavError::SizeOverflow));
    assert_eq!(data_size(1 << 30), Err(WavError::ExceedsRiffLimit));
}

#[test]
fn shorter_side_is_filled_with_silence() {
    let caller = [1_u8, 0, 2, 0];
    let callee = [3_u8, 0];
    let file = interleave_wav(&caller, &callee, 2, 1).unwrap();
    assert_eq!(file.len(), 44 + 8);
    assert_eq!(&file[44..], &[1, 0, 3, 0, 2, 0, 0, 0]);
}

#[test]
fn tap_counts_what_it_drops() {
    let mut tap = RecordingTapSender::new();
    for _ in 0..RECORDING_QUEUE_CAPACITY {
        tap.tap(RecordingSide::Caller, &[1, 2], 5);
    }
    tap.tap(RecordingSide::Callee, &[3], 6);
    assert_eq!(tap.packets_tapped, RECORDING_QUEUE_CAPACITY as u64);
    assert_eq!(tap.packets_dropped, 1);
    let first = tap.take().unwrap();
    assert_eq!(first.packet, vec![1, 2]);
    assert_eq!(first.side, RecordingSide::Caller);
    tap.tap(RecordingSide::Callee, &[3], 7);
    assert_eq!(tap.packets_dropped, 1);
}

#[test]
fn recorder_leaves_silence_for_a_gap() {
    let mut recorder = Recorder::new(vec![0, 8], 0);
    let mut tap = RecordingTapSender::new();
    tap.tap(RecordingSide::Caller, &speech(0, &[0xff; 160]), 0);
    tap.tap(
        RecordingSide::Caller,
        &speech(320, &[0xff; 160]),
        40 * MILLI,
    );
    let first = recorder.take_packet(&tap.take().unwrap()).unwrap();
    assert_eq!(first.silence, 0);
    assert_eq!(first.bytes.len(), 320);
    let second = recorder.take_packet(&tap.take().unwrap()).unwrap();
    assert_eq!(second.silence, 160);
    assert_eq!(recorder.caller.samples_written, 480);
}

#[test]
fn repeated_packet_adds_nothing() {
    let mut recorder = Recorder::new(vec![0], 0);
    let mut tap = RecordingTapSender::new();
    tap.tap(RecordingSide::Callee, &speech(0, &[0xff; 160]), 20 * MILLI);
    tap.tap(RecordingSide::Callee, &speech(0, &[0xff; 160]), 21 * MILLI);
    tap.tap(RecordingSide::Callee, &speech(160, &[0xff; 160]), 40 * MILLI);
    let first = recorder.take_packet(&tap.take().unwrap()).unwrap();
    assert_eq!(first.silence, 160);
    let again = recorder.take_packet(&tap.take().unwrap()).unwrap();
    assert_eq!((again.silence, again.bytes.len()), (0, 0));
    let next = recorder.take_packet(&tap.take().unwrap()).unwrap();
    assert_eq!((next.silence, next.bytes.len()), (0, 320));
    assert_eq!(recorder.callee.samples_written, 480);
    assert_eq!(recorder.caller.samples_written, 0);
}

#[test]
fn recorder_ignores_other_codecs() {
    let mut recorder = Recorder::new(vec![8], 0);
    let mut tap = RecordingTapSender::new();
    tap.tap(RecordingSide::Caller, &speech(0, &[0xff; 160]), 0);
    assert!(recorder.take_packet(&tap.take().unwrap()).is_none());
}

#[test]
fn recording_needs_a_known_codec() {
    assert!(RecordingSession::start(spec(vec![9, 18]), 0).is_err());
    let session = RecordingSession::start(spec(vec![18, 0]), 0).unwrap();
    let record = session.finish("a.wav", "/tmp", "/tmp/a.wav", 44, 3_000);
    assert_eq!(record.call_id, "call-1");
    assert_eq!(record.ended_at_ms, Some(3_000));
    assert_eq!(record.status, "incomplete");
    assert_eq!(record.file_size_bytes, 0);
}

#[test]
fn failed_recording_says_why() {
    let record = failed_record(&spec(vec![0]), "a.wav", "/tmp", "disk full", 9);
    assert_eq!(record.error_message.as_deref(), Some("disk full"));
    assert_eq!(record.status, "failed");
}

#[test]
fn recording_is_named_by_day_and_numbers() {
    let names = recording_names(
        &spec(vec![0]),
        &LocalStamp {
            year: "2024".to_string(),
            month: "05".to_string(),
            day: "06".to_string(),
            stamp: "20240506-070809".to_string(),
        },
    );
    assert_eq!(names.file_name, "20240506-070809_1001_1002_call-1.wav");
    assert_eq!(
        names.caller_raw,
        "20240506-070809_1001_1002_call-1.caller.raw.part"
    );
    assert_eq!(names.directory, vec!["domain-a", "2024", "05", "06"]);
}

#[test]
fn recording_without_writer_says_why() {
    let record = panic_record(&spec(vec![0]), "writer went away", 9);
    assert_eq!(record.status, "failed");
    assert_eq!(record.error_code.as_deref(), Some("recording_thread_failure"));
    assert_eq!(record.error_message.as_deref(), Some("writer went away"));
    assert_eq!(record.ended_at_ms, Some(9));
}
