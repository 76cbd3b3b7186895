use voipswitchd::dtmf::{
    map_event, DtmfCapability, DtmfDigit, DtmfEventSet, DtmfMediaMode, ParserConfig,
    ParserObservation, Rfc4733DigitCompleted, Rfc4733Parser, IDLE_TIMEOUT, RECENT_TTL,
    STATE_CAPACITY,
};

const MILLI: u64 = 1_000_000;
const NOW: u64 = 5_000 * MILLI;

fn capability() -> DtmfCapability {
    DtmfCapability {
        payload_type: 101,
        clock_rate: 8_000,
        events: DtmfEventSet { mask: 0x1_ffff },
        detectable: true,
    }
}

fn config(generation: u64) -> ParserConfig {
    ParserConfig::with_mode(generation, Some(capability()), DtmfMediaMode::Observe)
}

fn packet(sequence: u16, duration: u16, ended: bool) -> Vec<u8> {
    let mut packet = vec![0_u8; 16];
    packet[0] = 0x80;
    packet[1] = 101;
    packet[2..4].copy_from_slice(&sequence.to_be_bytes());
    packet[4..8].copy_from_slice(&42_u32.to_be_bytes());
    packet[8..12].copy_from_slice(&7_u32.to_be_bytes());
    packet[12] = 5;
    packet[13] = if ended { 0x80 } else { 0 };
    packet[14..16].copy_from_slice(&duration.to_be_bytes());
    packet
}

fn completions(observations: &[ParserObservation]) -> Vec<Rfc4733DigitCompleted> {
    observations
        .iter()
        .filter_map(|observation| match observation {
            ParserObservation::Completed(value) => Some(*value),
            ParserObservation::Invalid => None,
        })
        .collect()
}

#[test]
fn start_progress_and_repeated_end_complete_once() {
    let mut parser = Rfc4733Parser::new(config(3));
    assert!(parser.observe_packet(&packet(1, 80, false), NOW).is_empty());
    assert!(parser
        .observe_packet(&packet(2, 160, false), NOW)
        .is_empty());
    let completed = parser.observe_packet(&packet(3, 240, true), NOW);
    assert_eq!(completions(&completed).len(), 1);
    assert_eq!(completions(&completed)[0].duration_ms, 30);
    assert_eq!(completions(&completed)[0].generation, 3);
    assert!(parser.observe_packet(&packet(4, 240, true), NOW).is_empty());
    assert!(parser.observe_packet(&packet(5, 240, true), NOW).is_empty());
}

#[test]
fn duration_regression_and_reordering_do_not_duplicate() {
    let mut parser = Rfc4733Parser::new(config(1));
    parser.observe_packet(&packet(3, 240, false), NOW);
    assert_eq!(
        parser.observe_packet(&packet(2, 160, false), NOW),
        vec![ParserObservation::Invalid]
    );
    let observations = parser.observe_packet(&packet(4, 240, true), NOW);

    let completed = completions(&observations);
    assert_eq!(completed.len(), 1);
    assert_eq!(completed[0].duration_ms, 30);
}

#[test]
fn missing_end_completes_after_idle_deadline() {
    let mut parser = Rfc4733Parser::new(config(1));
    parser.observe_packet(&packet(1, 800, false), NOW);

    assert!(parser.expire(NOW + 249 * MILLI).is_empty());
    let completed = completions(&parser.expire(NOW + 250 * MILLI));
    assert_eq!(completed.len(), 1);
    assert!(completed[0].incomplete_end);
    assert_eq!(completed[0].duration_ms, 100);
}

#[test]
fn ignores_other_payload_type_and_rejects_invalid_rtp_layouts() {
    let mut parser = Rfc4733Parser::new(config(1));
    let mut other = packet(1, 80, true);
    other[1] = 8;
    assert!(parser.observe_packet(&other, NOW).is_empty());
    assert_eq!(
        parser.observe_packet(&[0x80, 101], NOW),
        vec![ParserObservation::Invalid]
    );

    let mut bad_extension = packet(1, 80, true);
    bad_extension[0] |= 0x10;
    bad_extension[14..16].copy_from_slice(&10_u16.to_be_bytes());
    assert_eq!(
        parser.observe_packet(&bad_extension, NOW),
        vec![ParserObservation::Invalid]
    );

    let mut bad_padding = packet(1, 80, true);
    bad_padding[0] |= 0x20;
    *bad_padding.last_mut().unwrap() = 100;
    assert_eq!(
        parser.observe_packet(&bad_padding, NOW),
        vec![ParserObservation::Invalid]
    );
}

#[test]
fn generation_change_clears_active_and_recent_state() {
    let mut parser = Rfc4733Parser::new(config(1));
    parser.observe_packet(&packet(1, 80, false), NOW);
    parser.update_config(config(2));
    assert!(parser.expire(NOW + IDLE_TIMEOUT).is_empty());

    let completed = completions(&parser.observe_packet(&packet(2, 160, true), NOW));
    assert_eq!(completed.len(), 1);
    assert_eq!(completed[0].generation, 2);

    parser.update_config(config(3));
    let completed = completions(&parser.observe_packet(&packet(3, 240, true), NOW));
    assert_eq!(completed.len(), 1);
    assert_eq!(completed[0].generation, 3);
}

#[test]
fn finished_press_is_forgotten_after_a_while() {
    let mut parser = Rfc4733Parser::new(config(1));
    parser.observe_packet(&packet(1, 240, true), NOW);
    assert!(parser.observe_packet(&packet(2, 240, true), NOW).is_empty());
    let later = NOW + RECENT_TTL + 1;
    assert_eq!(
        completions(&parser.observe_packet(&packet(3, 240, true), later)).len(),
        1
    );
}

#[test]
fn presses_under_way_are_bounded() {
    let mut parser = Rfc4733Parser::new(config(1));
    for timestamp in 0..(STATE_CAPACITY as u32 + 8) {
        let mut press = packet(1, 80, false);
        press[4..8].copy_from_slice(&timestamp.to_be_bytes());
        parser.observe_packet(&press, NOW);
    }
    assert!(parser.active.len() <= STATE_CAPACITY);
}

#[test]
fn events_are_mapped_to_digits() {
    assert_eq!(map_event(0, &capability()), Some(DtmfDigit::D0));
    assert_eq!(map_event(10, &capability()), Some(DtmfDigit::Star));
    assert_eq!(map_event(11, &capability()), Some(DtmfDigit::Pound));
    assert_eq!(map_event(15, &capability()), Some(DtmfDigit::D));
    assert_eq!(map_event(16, &capability()), Some(DtmfDigit::Flash));
    assert_eq!(map_event(17, &capability()), None);
    let digits_only = DtmfCapability {
        events: DtmfEventSet { mask: 0xffff },
        ..capability()
    };
    assert_eq!(map_event(16, &digits_only), None);
}

#[test]
fn only_collecting_suppresses_packets() {
    let event = packet(1, 80, false);
    let observing = Rfc4733Parser::new(config(1));
    assert!(!observing.suppresses_packet(&event));
    let collecting = Rfc4733Parser::new(ParserConfig::with_mode(
        1,
        Some(capability()),
        DtmfMediaMode::Collect,
    ));
    assert!(collecting.suppresses_packet(&event));
    let mut speech = event.clone();
    speech[1] = 8;
    assert!(!collecting.suppresses_packet(&speech));
}
