use etherparse::PacketBuilder;
use ixy_ci::pcap_tester::{inspect_frame, inspect_record, judge_sequence, test_pcap, Error, Frame};
use pcap_file::pcap::PcapWriter;

fn udp_frame(payload: &[u8]) -> Vec<u8> {
    let builder = PacketBuilder::ethernet2([1, 2, 3, 4, 5, 6], [7, 8, 9, 10, 11, 12])
        .ipv4([10, 0, 0, 1], [10, 0, 0, 2], 64)
        .udp(1234, 319);
    let mut frame = Vec::new();
    builder.write(&mut frame, payload).unwrap();
    frame
}

fn tcp_frame() -> Vec<u8> {
    let builder = PacketBuilder::ethernet2([1, 2, 3, 4, 5, 6], [7, 8, 9, 10, 11, 12])
        .ipv4([10, 0, 0, 1], [10, 0, 0, 2], 64)
        .tcp(1234, 80, 7, 1024);
    let mut frame = Vec::new();
    builder.write(&mut frame, &[1, 2, 3, 4]).unwrap();
    frame
}

fn test_payload(seq_num: u32) -> Vec<u8> {
    let mut payload = vec![0u8; 18];
    payload[0] = b'i';
    payload[1] = b'x';
    payload[2] = b'y';
    payload[14..].copy_from_slice(&seq_num.to_le_bytes());
    payload
}

fn capture(frames: &[Vec<u8>]) -> Vec<u8> {
    let mut writer = PcapWriter::new(Vec::new()).unwrap();
    for (i, frame) in frames.iter().enumerate() {
        writer.write(i as u32, 0, frame, frame.len() as u32).unwrap();
    }
    writer.into_writer()
}

fn capture_of(seq_nums: &[u32]) -> Vec<u8> {
    let frames: Vec<Vec<u8>> = seq_nums.iter().map(|s| udp_frame(&test_payload(*s))).collect();
    capture(&frames)
}

#[test]
fn thousand_distinct_packets_pass() {
    let seq_nums: Vec<u32> = (0..1000).collect();
    assert!(test_pcap(&capture_of(&seq_nums), 1000).is_ok());
}

#[test]
fn duplicate_of_five_hundred_fails() {
    let mut seq_nums: Vec<u32> = (1..1000).collect();
    seq_nums.push(500);
    assert_eq!(seq_nums.len(), 1000);
    let r = test_pcap(&capture_of(&seq_nums), 1000);
    assert!(matches!(r, Err(Error::DuplicateSequenceNumber)));
}

#[test]
fn duplicate_with_highest_number_below_the_band_is_out_of_band() {
    let mut seq_nums: Vec<u32> = (0..999).collect();
    seq_nums.push(500);
    assert_eq!(seq_nums.len(), 1000);
    let r = test_pcap(&capture_of(&seq_nums), 1000);
    assert!(matches!(r, Err(Error::BadSequenceNumber { packets: 1000, max_seq_num: 998 })));
}

#[test]
fn dropped_packet_is_a_count_mismatch() {
    let seq_nums: Vec<u32> = (0..999).collect();
    let r = test_pcap(&capture_of(&seq_nums), 1000);
    assert!(matches!(r, Err(Error::IncorrectPacketCount { expected: 1000, actual: 999 })));
}

#[test]
fn packets_may_arrive_out_of_order() {
    assert!(test_pcap(&capture_of(&[3, 0, 2, 1]), 4).is_ok());
}

#[test]
fn highest_number_may_reach_twice_the_count() {
    assert!(test_pcap(&capture_of(&[0, 1, 2, 8]), 4).is_ok());
    let r = test_pcap(&capture_of(&[0, 1, 2, 9]), 4);
    assert!(matches!(r, Err(Error::BadSequenceNumber { packets: 4, max_seq_num: 9 })));
}

#[test]
fn highest_number_below_the_band_fails() {
    let r = test_pcap(&capture_of(&[0, 1, 1, 2]), 4);
    assert!(matches!(r, Err(Error::BadSequenceNumber { packets: 4, max_seq_num: 2 })));
}

#[test]
fn empty_capture_against_zero_passes() {
    assert!(test_pcap(&capture(&[]), 0).is_ok());
}

#[test]
fn empty_capture_against_one_is_a_count_mismatch() {
    let r = test_pcap(&capture(&[]), 1);
    assert!(matches!(r, Err(Error::IncorrectPacketCount { expected: 1, actual: 0 })));
}

#[test]
fn other_transports_are_passed_over() {
    let frames = vec![
        tcp_frame(),
        udp_frame(&test_payload(0)),
        tcp_frame(),
        udp_frame(&test_payload(1)),
    ];
    assert!(test_pcap(&capture(&frames), 2).is_ok());
}

#[test]
fn udp_without_marker_is_malformed() {
    let mut payload = test_payload(1);
    payload[1] = b'z';
    let bad = udp_frame(&payload);
    let frames = vec![udp_frame(&test_payload(0)), bad.clone(), udp_frame(&test_payload(2))];
    match test_pcap(&capture(&frames), 3) {
        Err(Error::MalformedUdpPacket { packet }) => assert_eq!(packet, bad),
        other => panic!("got {:?}", other),
    }
}

#[test]
fn udp_of_other_length_is_malformed() {
    let mut payload = test_payload(1);
    payload.push(0);
    let bad = udp_frame(&payload);
    let frames = vec![bad.clone(), udp_frame(&test_payload(0))];
    match test_pcap(&capture(&frames), 1) {
        Err(Error::MalformedUdpPacket { packet }) => assert_eq!(packet, bad),
        other => panic!("got {:?}", other),
    }
}

#[test]
fn malformed_udp_is_refused_at_the_end_too() {
    let bad = udp_frame(&[b'i', b'x']);
    let frames = vec![udp_frame(&test_payload(0)), udp_frame(&test_payload(1)), bad.clone()];
    match test_pcap(&capture(&frames), 2) {
        Err(Error::MalformedUdpPacket { packet }) => assert_eq!(packet, bad),
        other => panic!("got {:?}", other),
    }
}

#[test]
fn truncated_test_packet_is_malformed() {
    let mut frame = udp_frame(&test_payload(0));
    frame.truncate(frame.len() - 15);
    let frames = vec![frame.clone()];
    match test_pcap(&capture(&frames), 1) {
        Err(Error::MalformedUdpPacket { packet }) => assert_eq!(packet, frame),
        other => panic!("got {:?}", other),
    }
}

#[test]
fn unreadable_frame_is_an_etherparse_error() {
    let frame = vec![1u8, 2, 3];
    match test_pcap(&capture(&[frame.clone()]), 1) {
        Err(Error::EtherParse { packet, .. }) => assert_eq!(packet, frame),
        other => panic!("got {:?}", other),
    }
}

#[test]
fn bad_container_is_a_pcap_error() {
    assert!(matches!(test_pcap(&[0u8; 24], 0), Err(Error::Pcap { .. })));
    assert!(matches!(test_pcap(&[], 0), Err(Error::Pcap { .. })));
}

#[test]
fn cut_off_record_is_a_pcap_error() {
    let mut bytes = capture_of(&[0, 1]);
    bytes.truncate(bytes.len() - 5);
    assert!(matches!(test_pcap(&bytes, 2), Err(Error::Pcap { .. })));
}

#[test]
fn malformed_packet_comes_before_a_later_cut() {
    let bad = udp_frame(&[0u8; 18]);
    let mut bytes = capture(&[bad.clone(), udp_frame(&test_payload(0))]);
    bytes.truncate(bytes.len() - 5);
    match test_pcap(&bytes, 2) {
        Err(Error::MalformedUdpPacket { packet }) => assert_eq!(packet, bad),
        other => panic!("got {:?}", other),
    }
}

#[test]
fn sequence_number_is_read_least_significant_byte_first() {
    let frame = udp_frame(&test_payload(0x0102_0304));
    assert_eq!(frame[frame.len() - 4..], [4u8, 3, 2, 1]);
    assert_eq!(inspect_record(&frame).unwrap(), Some(0x0102_0304));
}

#[test]
fn inspect_frame_reads_the_tail_of_a_longer_payload() {
    let mut payload = test_payload(7);
    payload.extend_from_slice(&[9, 0, 0, 0]);
    let frame = Frame::Udp { length: 26, payload };
    assert_eq!(inspect_frame(&[], Ok(frame)).unwrap(), Some(9));
    assert_eq!(inspect_frame(&[], Ok(Frame::Other)).unwrap(), None);
}

#[test]
fn judge_sequence_checks_count_then_band_then_duplicates() {
    assert!(judge_sequence(vec![0, 1, 2], 3).is_ok());
    assert!(matches!(
        judge_sequence(vec![7, 7], 3),
        Err(Error::IncorrectPacketCount { expected: 3, actual: 2 })
    ));
    assert!(matches!(
        judge_sequence(vec![7, 7, 7], 3),
        Err(Error::BadSequenceNumber { packets: 3, max_seq_num: 7 })
    ));
    assert!(matches!(judge_sequence(vec![6, 6, 2], 3), Err(Error::DuplicateSequenceNumber)));
    assert!(matches!(judge_sequence(vec![5, 2, 5], 3), Err(Error::DuplicateSequenceNumber)));
}

#[test]
fn capture_errors_are_worded() {
    assert_eq!(
        Error::IncorrectPacketCount { expected: 1000, actual: 999 }.message(),
        "Incorrect packet count: expected: 1000 actual: 999"
    );
    assert_eq!(
        Error::BadSequenceNumber { packets: 4, max_seq_num: 9 }.message(),
        "Bad sequence number: expected 4 packets but max sequence number was 9"
    );
    assert_eq!(
        Error::DuplicateSequenceNumber.message(),
        "Some sequence number occured more than once"
    );
    assert_eq!(
        Error::MalformedUdpPacket { packet: vec![1, 0xab, 16] }.message(),
        "Malformed UDP packet (invalid length or missing \"ixy\"): [1, ab, 10]"
    );
}

#[test]
fn errors_of_the_parsers_are_worded_by_them() {
    let e = test_pcap(&[1, 2, 3, 4, 5, 6, 7, 8], 0).unwrap_err();
    assert_eq!(e.message(), "Failed to parse pcap file: Invalid field value: PcapHeader wrong magic number");
    let e = test_pcap(&capture(&[vec![1u8, 2, 3]]), 1).unwrap_err();
    assert_eq!(
        e.message(),
        "Failed to parse ethernet frame: UnexpectedEndOfSlice(14); packet: [1, 2, 3]"
    );
}

#[test]
fn udp_over_ipv6_counts_too() {
    let builder = PacketBuilder::ethernet2([1, 2, 3, 4, 5, 6], [7, 8, 9, 10, 11, 12])
        .ipv6([1; 16], [2; 16], 64)
        .udp(1234, 319);
    let mut frame = Vec::new();
    builder.write(&mut frame, &test_payload(0)).unwrap();
    assert!(test_pcap(&capture(&[frame]), 1).is_ok());
}

#[test]
fn frame_that_is_not_ip_is_passed_over() {
    let mut arp = vec![0u8; 14 + 28];
    arp[12] = 0x08;
    arp[13] = 0x06;
    assert_eq!(inspect_record(&arp).unwrap(), None);
    let frames = vec![arp, udp_frame(&test_payload(0))];
    assert!(test_pcap(&capture(&frames), 1).is_ok());
}

#[test]
fn udp_header_that_is_cut_off_is_an_etherparse_error() {
    let mut frame = udp_frame(&test_payload(0));
    frame.truncate(14 + 20 + 4);
    assert!(matches!(inspect_record(&frame), Err(Error::EtherParse { .. })));
}

#[test]
fn length_field_decides_not_the_length_of_the_payload() {
    let mut frame = udp_frame(&test_payload(7));
    frame[14 + 20 + 5] = 27;
    match inspect_record(&frame) {
        Err(Error::MalformedUdpPacket { packet }) => assert_eq!(packet, frame),
        other => panic!("got {:?}", other),
    }
    let mut longer = test_payload(7);
    longer.extend_from_slice(&[1, 0, 0, 0]);
    let mut frame = udp_frame(&longer);
    frame[14 + 20 + 5] = 26;
    assert_eq!(inspect_record(&frame).unwrap(), Some(1));
}

#[test]
fn judge_sequence_of_nothing_against_nothing_passes() {
    assert!(judge_sequence(Vec::new(), 0).is_ok());
    assert!(matches!(
        judge_sequence(vec![5], 0),
        Err(Error::IncorrectPacketCount { expected: 0, actual: 1 })
    ));
}

#[test]
fn judge_sequence_takes_the_largest_numbers() {
    assert!(matches!(
        judge_sequence(vec![u32::MAX], 1),
        Err(Error::BadSequenceNumber { packets: 1, max_seq_num: u32::MAX })
    ));
    assert!(judge_sequence(vec![0], 1).is_ok());
    assert!(judge_sequence(vec![2], 1).is_ok());
    assert!(matches!(
        judge_sequence(vec![3], 1),
        Err(Error::BadSequenceNumber { packets: 1, max_seq_num: 3 })
    ));
}

fn raw_capture(magic: [u8; 4], sub_second: [u8; 4], frame: &[u8], little: bool) -> Vec<u8> {
    let word = |n: u32| if little { n.to_le_bytes() } else { n.to_be_bytes() };
    let half = |n: u16| if little { n.to_le_bytes() } else { n.to_be_bytes() };
    let mut bytes = magic.to_vec();
    bytes.extend_from_slice(&half(2));
    bytes.extend_from_slice(&half(4));
    bytes.extend_from_slice(&word(0));
    bytes.extend_from_slice(&word(0));
    bytes.extend_from_slice(&word(65535));
    bytes.extend_from_slice(&word(1));
    bytes.extend_from_slice(&word(7));
    bytes.extend_from_slice(&sub_second);
    bytes.extend_from_slice(&word(frame.len() as u32));
    bytes.extend_from_slice(&word(frame.len() as u32));
    bytes.extend_from_slice(frame);
    bytes
}

#[test]
fn time_stamps_of_any_size_are_passed_over() {
    let frame = udp_frame(&test_payload(0));
    let little = raw_capture([0xd4, 0xc3, 0xb2, 0xa1], [0xff; 4], &frame, true);
    assert!(test_pcap(&little, 1).is_ok());
    let big = raw_capture([0xa1, 0xb2, 0xc3, 0xd4], [0xff; 4], &frame, false);
    assert!(test_pcap(&big, 1).is_ok());
    let just_too_large = raw_capture([0xd4, 0xc3, 0xb2, 0xa1], 4294968u32.to_le_bytes(), &frame, true);
    assert!(test_pcap(&just_too_large, 1).is_ok());
}

#[test]
fn nanosecond_captures_are_read_in_either_byte_order() {
    let frame = udp_frame(&test_payload(1));
    let little = raw_capture([0x4d, 0x3c, 0xb2, 0xa1], [0xff; 4], &frame, true);
    assert!(test_pcap(&little, 1).is_ok());
    let big = raw_capture([0xa1, 0xb2, 0x3c, 0x4d], [0xff; 4], &frame, false);
    assert!(test_pcap(&big, 1).is_ok());
}

#[test]
fn capture_with_a_time_stamp_beyond_the_multiplier_is_still_judged() {
    let frame = udp_frame(&test_payload(5));
    let bytes = raw_capture([0xd4, 0xc3, 0xb2, 0xa1], [0xff; 4], &frame, true);
    assert!(matches!(
        test_pcap(&bytes, 2),
        Err(Error::IncorrectPacketCount { expected: 2, actual: 1 })
    ));
}
