use hp_mouse_configurator::{Button, Event, HpMouseEventIterator, ProtocolError, Step};

const BATTERY: u16 = 0x0F06;
const FIRMWARE: u16 = 0x0F01;
const BUTTONS: u16 = 0x0F0E;
const MOUSE: u16 = 0x0F12;

/// The content of a report: the four header bytes, then the payload.
fn frame(signature: u16, device: u8, length: u16, sequence: u8, payload: &[u8]) -> Vec<u8> {
    let mut bytes = vec![
        (signature & 0xFF) as u8,
        ((signature >> 8) & 0x0F) as u8 | (device << 4),
        (length & 0xFF) as u8,
        ((length >> 8) & 0x03) as u8 | (sequence << 2),
    ];
    bytes.extend_from_slice(payload);
    bytes
}

fn battery_event() -> Event {
    Event::Battery {
        low_level: 10,
        crit_level: 5,
        power_off_timeout: 30,
        auto_report_delay: 60,
        level: 85,
    }
}

/// Feeds the payload cut at the given places, one report for each piece, and
/// returns what each report gave.
fn feed_split(
    decoder: &mut HpMouseEventIterator,
    signature: u16,
    payload: &[u8],
    cuts: &[usize],
) -> Vec<Result<Option<Event>, ProtocolError>> {
    let mut results = Vec::new();
    let mut start = 0;
    let mut sequence = 0u8;
    for &cut in cuts.iter().chain(std::iter::once(&payload.len())) {
        let report = frame(signature, 0, payload.len() as u16, sequence, &payload[start..cut]);
        results.push(decoder.report_1(&report));
        start = cut;
        sequence += 1;
    }
    results
}

#[test]
fn single_report_battery_packet() {
    let mut decoder = HpMouseEventIterator::new();
    assert!(decoder.is_idle());
    let report = frame(BATTERY, 0, 5, 0, &[10, 5, 30, 60, 85]);
    assert_eq!(decoder.report_1(&report), Ok(Some(battery_event())));
    assert!(decoder.is_idle());
}

#[test]
fn single_report_packets_of_each_kind() {
    let mut decoder = HpMouseEventIterator::new();
    let firmware = [0xE8, 0x03, 0, 0, 5, b'M', b'o', b'u', b's', b'e', 3, b'0', b'0', b'1'];
    assert_eq!(
        decoder.report_1(&frame(FIRMWARE, 0, firmware.len() as u16, 0, &firmware)),
        Ok(Some(Event::Firmware {
            version: (1, 0, 0),
            device: "Mouse".to_string(),
            serial: "001".to_string(),
        }))
    );
    let buttons = [0, 7, 1, 0, 0b11, 4, 2, 1, 0];
    assert_eq!(
        decoder.report_1(&frame(BUTTONS, 0, buttons.len() as u16, 0, &buttons)),
        Ok(Some(Event::Buttons {
            total_buttons: 7,
            programmed_buttons: 1,
            host_id: 0,
            support_long_press: true,
            support_double_press: true,
            support_down_up_press: false,
            support_simulate: false,
            support_program_stop: false,
            buttons: vec![Button { id: 4, host_id: 2, press_type: 1, action: vec![] }],
        }))
    );
    let mouse = [0, 0x40, 0x1F, 0x90, 0x01, 0xB0, 0x04, 0x64, 0x00, 0x35, 0xA0, 1, 30, 20, 0b101];
    assert_eq!(
        decoder.report_1(&frame(MOUSE, 0, mouse.len() as u16, 0, &mouse)),
        Ok(Some(Event::Mouse {
            max_dpi: 8000,
            min_dpi: 400,
            dpi: 1200,
            step_dpi: 100,
            nb_sensitivity_wheel1: Some(5),
            sensitivity_wheel1: 3,
            nb_sensitivity_wheel2: None,
            sensitivity_wheel2: 10,
            host_id: 1,
            cut_off_max: 30,
            cut_off: 20,
            support_left_handed: true,
            left_handed: false,
            support_no_save_to_flash: true,
        }))
    );
    assert!(decoder.is_idle());
}

#[test]
fn bytes_past_the_declared_length_are_cut() {
    let mut decoder = HpMouseEventIterator::new();
    let report = frame(BATTERY, 0, 5, 0, &[10, 5, 30, 60, 85, 0xEE, 0xEE, 0xEE]);
    assert_eq!(decoder.report_1(&report), Ok(Some(battery_event())));
    assert!(decoder.is_idle());
    // Cut to four bytes the packet is too short for a battery event.
    let report = frame(BATTERY, 0, 4, 0, &[10, 5, 30, 60, 85]);
    assert_eq!(decoder.report_1(&report), Ok(None));
    assert!(decoder.is_idle());
}

#[test]
fn packet_over_two_reports() {
    let mut decoder = HpMouseEventIterator::new();
    assert_eq!(decoder.report_1(&frame(BATTERY, 0, 5, 0, &[10, 5])), Ok(None));
    assert!(!decoder.is_idle());
    assert_eq!(decoder.report_1(&frame(BATTERY, 0, 5, 1, &[30, 60, 85])), Ok(Some(battery_event())));
    assert!(decoder.is_idle());
}

#[test]
fn split_packet_decodes_as_whole() {
    let payload = [0, 7, 2, 0, 0b10101, 1, 0, 0, 2, 0x10, 0x20, 2, 5, 1, 3, 7, 8, 9];
    let mut whole = HpMouseEventIterator::new();
    let expected = whole.report_1(&frame(BUTTONS, 0, payload.len() as u16, 0, &payload));
    assert!(matches!(expected, Ok(Some(Event::Buttons { .. }))));

    let partitions: [&[usize]; 7] =
        [&[], &[1], &[9], &[17], &[0, 5], &[4, 4, 11], &[1, 2, 3, 4, 5, 6, 7, 8, 9, 10]];
    for cuts in partitions {
        let mut decoder = HpMouseEventIterator::new();
        let mut results = feed_split(&mut decoder, BUTTONS, &payload, cuts);
        let last = results.pop().unwrap();
        assert_eq!(last, expected);
        for earlier in results {
            assert_eq!(earlier, Ok(None));
        }
        assert!(decoder.is_idle());
    }
}

#[test]
fn packet_in_single_byte_reports() {
    let mut decoder = HpMouseEventIterator::new();
    let results = feed_split(&mut decoder, BATTERY, &[10, 5, 30, 60, 85], &[1, 2, 3, 4]);
    assert_eq!(
        results,
        vec![Ok(None), Ok(None), Ok(None), Ok(None), Ok(Some(battery_event()))]
    );
}

#[test]
fn longest_packet_in_the_most_reports() {
    // 1023 bytes over 64 reports: the largest length and sequence number.
    let mut payload = vec![0u8; 1023];
    payload[0] = 0xE8;
    payload[1] = 0x03;
    payload[4] = 200;
    for byte in payload[5..205].iter_mut() {
        *byte = b'x';
    }
    payload[205] = 255;
    for byte in payload[206..461].iter_mut() {
        *byte = b'y';
    }
    let cuts: Vec<usize> = (1..64).map(|i| i * 16 - 1).collect();
    let mut decoder = HpMouseEventIterator::new();
    let mut results = feed_split(&mut decoder, FIRMWARE, &payload, &cuts);
    assert_eq!(results.len(), 64);
    assert_eq!(
        results.pop().unwrap(),
        Ok(Some(Event::Firmware {
            version: (1, 0, 0),
            device: "x".repeat(200),
            serial: "y".repeat(255),
        }))
    );
    assert!(results.into_iter().all(|r| r == Ok(None)));
    assert!(decoder.is_idle());
}

#[test]
fn composite_device_does_not_matter() {
    let mut decoder = HpMouseEventIterator::new();
    assert_eq!(decoder.report_1(&frame(BATTERY, 3, 5, 0, &[10, 5])), Ok(None));
    assert_eq!(decoder.report_1(&frame(BATTERY, 9, 5, 1, &[30, 60, 85])), Ok(Some(battery_event())));
}

#[test]
fn start_while_packet_incomplete_is_rejected() {
    let mut decoder = HpMouseEventIterator::new();
    assert_eq!(decoder.report_1(&frame(BATTERY, 0, 5, 0, &[10, 5])), Ok(None));
    assert_eq!(
        decoder.report_1(&frame(BATTERY, 0, 5, 0, &[10, 5, 30, 60, 85])),
        Err(ProtocolError::UnexpectedStart)
    );
    assert!(decoder.is_idle());
    // The decoder goes on with the next packet.
    assert_eq!(
        decoder.report_1(&frame(BATTERY, 0, 5, 0, &[10, 5, 30, 60, 85])),
        Ok(Some(battery_event()))
    );
}

#[test]
fn start_after_empty_first_report_is_rejected() {
    let mut decoder = HpMouseEventIterator::new();
    assert_eq!(decoder.report_1(&frame(BATTERY, 0, 5, 0, &[])), Ok(None));
    assert!(!decoder.is_idle());
    assert_eq!(
        decoder.report_1(&frame(BATTERY, 0, 5, 0, &[10, 5, 30, 60, 85])),
        Err(ProtocolError::UnexpectedStart)
    );
}

#[test]
fn continuation_without_packet_is_rejected() {
    let mut decoder = HpMouseEventIterator::new();
    assert_eq!(
        decoder.report_1(&frame(BATTERY, 0, 5, 1, &[30, 60, 85])),
        Err(ProtocolError::NoPacketInProgress)
    );
    assert!(decoder.is_idle());
    // Also right after a packet was completed.
    assert_eq!(
        decoder.report_1(&frame(BATTERY, 0, 5, 0, &[10, 5, 30, 60, 85])),
        Ok(Some(battery_event()))
    );
    assert_eq!(
        decoder.report_1(&frame(BATTERY, 0, 5, 1, &[1])),
        Err(ProtocolError::NoPacketInProgress)
    );
}

#[test]
fn continuation_with_other_signature_is_rejected() {
    let mut decoder = HpMouseEventIterator::new();
    assert_eq!(decoder.report_1(&frame(BATTERY, 0, 5, 0, &[10, 5])), Ok(None));
    assert_eq!(
        decoder.report_1(&frame(BUTTONS, 0, 5, 1, &[30, 60, 85])),
        Err(ProtocolError::SignatureMismatch)
    );
    assert!(decoder.is_idle());
    assert_eq!(
        decoder.report_1(&frame(BATTERY, 0, 5, 1, &[30, 60, 85])),
        Err(ProtocolError::NoPacketInProgress)
    );
}

#[test]
fn continuation_with_other_length_is_rejected() {
    let mut decoder = HpMouseEventIterator::new();
    assert_eq!(decoder.report_1(&frame(BATTERY, 0, 5, 0, &[10, 5])), Ok(None));
    assert_eq!(
        decoder.report_1(&frame(BATTERY, 0, 6, 1, &[30, 60, 85])),
        Err(ProtocolError::LengthMismatch)
    );
    assert!(decoder.is_idle());
}

#[test]
fn continuation_out_of_sequence_is_rejected() {
    let mut decoder = HpMouseEventIterator::new();
    assert_eq!(decoder.report_1(&frame(BATTERY, 0, 5, 0, &[10, 5])), Ok(None));
    assert_eq!(
        decoder.report_1(&frame(BATTERY, 0, 5, 2, &[30, 60, 85])),
        Err(ProtocolError::SequenceMismatch)
    );
    assert!(decoder.is_idle());

    assert_eq!(decoder.report_1(&frame(BATTERY, 0, 5, 0, &[10])), Ok(None));
    assert_eq!(decoder.report_1(&frame(BATTERY, 0, 5, 1, &[5])), Ok(None));
    assert_eq!(
        decoder.report_1(&frame(BATTERY, 0, 5, 1, &[30, 60, 85])),
        Err(ProtocolError::SequenceMismatch)
    );
    assert!(decoder.is_idle());
}

#[test]
fn signature_is_checked_before_length_and_sequence() {
    let mut decoder = HpMouseEventIterator::new();
    assert_eq!(decoder.report_1(&frame(BATTERY, 0, 5, 0, &[10, 5])), Ok(None));
    assert_eq!(
        decoder.report_1(&frame(MOUSE, 0, 9, 7, &[1])),
        Err(ProtocolError::SignatureMismatch)
    );
    assert_eq!(decoder.report_1(&frame(BATTERY, 0, 5, 0, &[10, 5])), Ok(None));
    assert_eq!(
        decoder.report_1(&frame(BATTERY, 0, 9, 7, &[1])),
        Err(ProtocolError::LengthMismatch)
    );
}

#[test]
fn signature_below_base_is_ignored() {
    let mut decoder = HpMouseEventIterator::new();
    assert_eq!(decoder.report_1(&frame(0x0EFF, 0, 5, 0, &[10, 5, 30, 60, 85])), Ok(None));
    assert!(decoder.is_idle());
    assert_eq!(decoder.report_1(&frame(0x0006, 0, 5, 3, &[10, 5, 30, 60, 85])), Ok(None));
    assert!(decoder.is_idle());
}

#[test]
fn signature_below_base_leaves_packet_in_progress() {
    let mut decoder = HpMouseEventIterator::new();
    assert_eq!(decoder.report_1(&frame(BATTERY, 0, 5, 0, &[10, 5])), Ok(None));
    // Neither a start nor a misfit continuation with a foreign signature
    // disturbs the packet.
    assert_eq!(decoder.report_1(&frame(0x0EFF, 0, 5, 0, &[1, 2, 3, 4, 5])), Ok(None));
    assert_eq!(decoder.report_1(&frame(0x0123, 0, 9, 9, &[1, 2, 3, 4, 5])), Ok(None));
    assert!(!decoder.is_idle());
    assert_eq!(decoder.report_1(&frame(BATTERY, 0, 5, 1, &[30, 60, 85])), Ok(Some(battery_event())));
}

#[test]
fn report_shorter_than_a_header_is_ignored() {
    let mut decoder = HpMouseEventIterator::new();
    assert_eq!(decoder.report_1(&[]), Ok(None));
    assert_eq!(decoder.report_1(&[0x06, 0x0F, 0x05]), Ok(None));
    assert!(decoder.is_idle());
    assert_eq!(decoder.report_1(&frame(BATTERY, 0, 5, 0, &[10, 5])), Ok(None));
    assert_eq!(decoder.report_1(&[0x06, 0x0F, 0x05]), Ok(None));
    assert_eq!(decoder.report_1(&frame(BATTERY, 0, 5, 1, &[30, 60, 85])), Ok(Some(battery_event())));
}

#[test]
fn unknown_kind_is_dropped_when_complete() {
    let mut decoder = HpMouseEventIterator::new();
    assert_eq!(decoder.report_1(&frame(0x0F02, 0, 3, 0, &[1, 2])), Ok(None));
    assert!(!decoder.is_idle());
    assert_eq!(decoder.report_1(&frame(0x0F02, 0, 3, 1, &[3])), Ok(None));
    assert!(decoder.is_idle());
}

#[test]
fn malformed_packet_gives_no_event() {
    let mut decoder = HpMouseEventIterator::new();
    // A button packet whose command byte is not zero.
    assert_eq!(decoder.report_1(&frame(BUTTONS, 0, 5, 0, &[1, 7, 0, 0, 0])), Ok(None));
    assert!(decoder.is_idle());
    // A firmware packet whose text is not UTF-8.
    assert_eq!(
        decoder.report_1(&frame(FIRMWARE, 0, 8, 0, &[0xE8, 0x03, 0, 0, 1, 0xFF, 1, b'1'])),
        Ok(None)
    );
    assert!(decoder.is_idle());
}

#[test]
fn declared_length_zero_completes_at_once() {
    let mut decoder = HpMouseEventIterator::new();
    assert_eq!(decoder.report_1(&frame(BATTERY, 0, 0, 0, &[])), Ok(None));
    assert!(decoder.is_idle());
    assert_eq!(decoder.report_1(&frame(BATTERY, 0, 0, 0, &[10, 5, 30, 60, 85])), Ok(None));
    assert!(decoder.is_idle());
}

#[test]
fn next_ends_on_an_empty_read() {
    let mut decoder = HpMouseEventIterator::new();
    assert_eq!(decoder.next(&[]), Step::Finished);
    let mut report = vec![1];
    report.extend_from_slice(&frame(BATTERY, 0, 5, 0, &[10, 5]));
    assert_eq!(decoder.next(&report), Step::ReadMore);
    assert_eq!(decoder.next(&[]), Step::Finished);
    assert!(!decoder.is_idle());
}

#[test]
fn next_skips_other_report_types() {
    let mut decoder = HpMouseEventIterator::new();
    for report_type in [0u8, 2, 3, 255] {
        let mut report = vec![report_type];
        report.extend_from_slice(&frame(BATTERY, 0, 5, 0, &[10, 5, 30, 60, 85]));
        assert_eq!(decoder.next(&report), Step::ReadMore);
        assert!(decoder.is_idle());
    }
    assert_eq!(decoder.next(&[1]), Step::ReadMore);
}

#[test]
fn next_hands_out_events_and_faults() {
    let mut decoder = HpMouseEventIterator::new();
    let mut first = vec![1];
    first.extend_from_slice(&frame(BATTERY, 0, 5, 0, &[10, 5]));
    let mut second = vec![1];
    second.extend_from_slice(&frame(BATTERY, 0, 5, 1, &[30, 60, 85]));
    assert_eq!(decoder.next(&first), Step::ReadMore);
    assert_eq!(decoder.next(&second), Step::Event(battery_event()));
    assert_eq!(decoder.next(&second), Step::Fault(ProtocolError::NoPacketInProgress));
    assert_eq!(decoder.next(&first), Step::ReadMore);
    assert_eq!(decoder.next(&first), Step::Fault(ProtocolError::UnexpectedStart));
    assert!(decoder.is_idle());
}
