use casimir::nci_framing::{read_packet, segment, NciRead};
use casimir::octets::{read_le16, read_le32};
use casimir::rf_framing::{read_addresses, read_frame, rewrite_sender, write_frame, FrameTooLong};

#[test]
fn short_packet_is_one_segment() {
    let packet = vec![0x20, 0x00, 0x01, 0x01];
    assert_eq!(segment(&packet), vec![0x20, 0x00, 0x01, 0x01]);
}

#[test]
fn empty_payload_is_one_empty_segment() {
    let packet = vec![0x20, 0x03, 0x00];
    assert_eq!(segment(&packet), vec![0x20, 0x03, 0x00]);
}

#[test]
fn long_payload_is_cut_in_segments_of_255() {
    let mut packet = vec![0x00, 0x00, 0x00];
    packet.extend((0..300u32).map(|i| i as u8));
    let out = segment(&packet);
    assert_eq!(out.len(), 3 + 255 + 3 + 45);
    assert_eq!(&out[0..3], &[0x10, 0x00, 255]);
    assert_eq!(&out[3..258], &packet[3..258]);
    assert_eq!(&out[258..261], &[0x00, 0x00, 45]);
    assert_eq!(&out[261..], &packet[258..]);
}

#[test]
fn segment_clears_a_set_boundary_flag() {
    let packet = vec![0x30, 0x01, 0x00];
    assert_eq!(segment(&packet), vec![0x20, 0x01, 0x00]);
}

#[test]
fn segmented_packet_reads_back_whole() {
    let mut packet = vec![0x00, 0x00, 45];
    packet.extend((0..300u32).map(|i| (i * 7) as u8));
    let written = segment(&packet);
    match read_packet(&written) {
        NciRead::Packet { packet: read, consumed } => {
            assert_eq!(read, packet);
            assert_eq!(consumed, written.len());
        }
        other => panic!("unexpected {:?}", other),
    }
}

#[test]
fn read_packet_keeps_last_header_and_joins_payloads() {
    let stream = vec![0x31, 0x02, 0x02, 0xaa, 0xbb, 0x21, 0x02, 0x01, 0xcc, 0x99];
    match read_packet(&stream) {
        NciRead::Packet { packet, consumed } => {
            assert_eq!(packet, vec![0x21, 0x02, 0x01, 0xaa, 0xbb, 0xcc]);
            assert_eq!(consumed, 9);
        }
        other => panic!("unexpected {:?}", other),
    }
}

#[test]
fn read_packet_needs_more_bytes() {
    assert!(matches!(read_packet(&vec![0x20, 0x00]), NciRead::NeedMore));
    assert!(matches!(read_packet(&vec![0x20, 0x00, 0x02, 0x01]), NciRead::NeedMore));
    assert!(matches!(read_packet(&vec![0x30, 0x00, 0x01, 0x01]), NciRead::NeedMore));
}

#[test]
fn read_packet_rejects_unknown_message_type() {
    assert!(matches!(read_packet(&vec![0x80, 0x00, 0x00]), NciRead::InvalidHeader));
}

#[test]
fn rf_frame_round_trip() {
    let packet = vec![1u8, 2, 3];
    let frame = write_frame(&packet).unwrap();
    assert_eq!(frame, vec![3, 0, 1, 2, 3]);
    assert_eq!(read_frame(&frame), Some((packet, 5)));
}

#[test]
fn rf_frame_length_is_little_endian() {
    let packet = vec![0u8; 0x0102];
    let frame = write_frame(&packet).unwrap();
    assert_eq!(&frame[0..2], &[0x02, 0x01]);
    assert_eq!(frame.len(), 0x0104);
}

#[test]
fn rf_frame_too_long() {
    let packet = vec![0u8; 0x10000];
    assert_eq!(write_frame(&packet), Err(FrameTooLong));
}

#[test]
fn rf_frame_incomplete() {
    assert_eq!(read_frame(&vec![5u8]), None);
    assert_eq!(read_frame(&vec![3u8, 0, 1, 2]), None);
}

#[test]
fn rewrite_sender_sets_first_two_bytes() {
    let mut packet = vec![0xffu8, 0xff, 0x07, 0x00, 0x42];
    assert!(rewrite_sender(&mut packet, 0x0102));
    assert_eq!(packet, vec![0x02, 0x01, 0x07, 0x00, 0x42]);
    let mut short = vec![0x01u8];
    assert!(!rewrite_sender(&mut short, 3));
    assert_eq!(short, vec![0x01]);
}

#[test]
fn addresses_of_rf_packet() {
    assert_eq!(read_addresses(&[0x02, 0x01, 0xff, 0xff, 0x00]), Some((0x0102, 0xffff)));
    assert_eq!(read_addresses(&[0x02, 0x01, 0xff]), None);
}

#[test]
fn little_endian_reads() {
    assert_eq!(read_le16(&[0x34, 0x12]), 0x1234);
    assert_eq!(read_le32(&[0x78, 0x56, 0x34, 0x12]), 0x12345678);
}
