use tk_pie::hemicom::framing::{frame, PacketReceiver, PacketSender, RxStep};
use tk_pie::hemicom::{compare_seqnums, Header, SeqnumResult, BAD_SEQNUM_THRESHOLD, HEADER_LEN};
use tk_pie::button::Button;
use tk_pie::event::switch::{Event, EventKind};
use tk_pie::event::Half;
use tk_pie::hemicom::{outgoing_event, Message};
use tk_pie::keys::Key;

#[test]
fn seqnum_comparison() {
    let max = u16::MAX;
    assert_eq!(compare_seqnums(0, 0), SeqnumResult::OldSeqnum);
    assert_eq!(compare_seqnums(0, 1), SeqnumResult::OldSeqnum);
    assert_eq!(compare_seqnums(0, BAD_SEQNUM_THRESHOLD), SeqnumResult::OldSeqnum);
    assert_eq!(compare_seqnums(0, BAD_SEQNUM_THRESHOLD + 1), SeqnumResult::Desync);
    assert_eq!(compare_seqnums(0, BAD_SEQNUM_THRESHOLD + 12345), SeqnumResult::Desync);
    assert_eq!(compare_seqnums(1, 0), SeqnumResult::NewSeqnum);
    assert_eq!(compare_seqnums(1, max), SeqnumResult::NewSeqnum);
    assert_eq!(compare_seqnums(max, max), SeqnumResult::OldSeqnum);
    assert_eq!(compare_seqnums(max, max - 1), SeqnumResult::NewSeqnum);
    assert_eq!(compare_seqnums(max, max - BAD_SEQNUM_THRESHOLD), SeqnumResult::NewSeqnum);
    assert_eq!(compare_seqnums(max, max - BAD_SEQNUM_THRESHOLD - 1), SeqnumResult::Desync);
    assert_eq!(compare_seqnums(max, max / 2), SeqnumResult::Desync);
    assert_eq!(compare_seqnums(0, max / 2), SeqnumResult::Desync);
}

#[test]
fn header_crc() {
    let mock_mody = &[1u8, 2, 3, 4, 5, 6];
    let header = Header::new(123, 456, mock_mody);
    assert!(header.valid_header_crc());
    assert!(header.valid_body_crc(mock_mody));
}

#[test]
fn should_discard_only_old_seqnums() {
    assert!(SeqnumResult::OldSeqnum.should_discard_message());
    assert!(!SeqnumResult::NewSeqnum.should_discard_message());
    assert!(!SeqnumResult::Desync.should_discard_message());
}

#[test]
fn crc16_check_value() {
    // the check value of CRC-16/ARC
    assert_eq!(Header::calculate_body_crc(b"123456789"), 0xBB3D);
    assert_eq!(Header::calculate_body_crc(&[]), 0);
}

#[test]
fn header_bytes_layout_and_roundtrip() {
    let body = [9u8, 8, 7];
    let header = Header::new(0x42, 0x1234, &body);
    let bytes = header.to_bytes();
    assert_eq!(bytes.len(), HEADER_LEN);
    assert_eq!(bytes[0], 3);
    assert_eq!(bytes[1], 0x42);
    assert_eq!(bytes[2], 0x34);
    assert_eq!(bytes[3], 0x12);
    let crc = Header::calculate_body_crc(&body);
    assert_eq!(u16::from_le_bytes([bytes[4], bytes[5]]), crc);
    assert_eq!(Header::from_bytes(&bytes), header);
    assert_eq!(header.len(), 3);
    assert_eq!(header.seqnum(), 0x1234);
    assert_eq!(header.calculate_header_crc(), u16::from_le_bytes([bytes[6], bytes[7]]));
}

#[test]
fn corrupted_header_is_invalid() {
    let body = [1u8, 2, 3];
    let header = Header::new(7, 1, &body);
    let mut bytes = header.to_bytes();
    bytes[1] ^= 0xff;
    assert!(!Header::from_bytes(&bytes).valid_header_crc());
    assert!(!header.valid_body_crc(&[1, 2, 4]));
}

fn body_of(step: RxStep) -> Vec<u8> {
    match step {
        RxStep::Packet(b) => b,
        other => panic!("expected a packet, got {other:?}"),
    }
}

#[test]
fn framed_packets_are_received_once() {
    let mut sender = PacketSender::new();
    let mut receiver = PacketReceiver::new();
    let first = sender.next_packet(&[10, 20, 30]);
    let second = sender.next_packet(&[40]);
    // every packet is sent three times
    for _ in 0..3 {
        assert!(receiver.push_bytes(&first));
    }
    assert!(receiver.push_bytes(&second));
    // the first packet is handed out once, its two resends are dropped
    assert_eq!(body_of(receiver.poll()), vec![10, 20, 30]);
    assert!(matches!(receiver.poll(), RxStep::OldPacket));
    assert!(matches!(receiver.poll(), RxStep::OldPacket));
    assert_eq!(body_of(receiver.poll()), vec![40]);
    assert!(matches!(receiver.poll(), RxStep::NeedBytes));
}

#[test]
fn receiver_skips_garbage_and_bad_bodies() {
    let mut receiver = PacketReceiver::new();
    let good = frame(5, 1, &[1, 2, 3, 4]);
    let mut bad_body = frame(6, 2, &[9, 9]);
    let last = bad_body.len() - 1;
    bad_body[last] ^= 1;
    assert!(receiver.push_bytes(&[0xAA, 0xBB]));
    assert!(receiver.push_bytes(&good));
    assert!(receiver.push_bytes(&bad_body));
    assert!(matches!(receiver.poll(), RxStep::BadHeader));
    assert!(matches!(receiver.poll(), RxStep::BadHeader));
    assert_eq!(body_of(receiver.poll()), vec![1, 2, 3, 4]);
    assert!(matches!(receiver.poll(), RxStep::BadBody));
    assert!(matches!(receiver.poll(), RxStep::NeedBytes));
}

#[test]
fn receiver_waits_for_whole_packet() {
    let mut receiver = PacketReceiver::new();
    let packet = frame(1, 3, &[7, 7, 7]);
    assert!(receiver.push_bytes(&packet[..5]));
    assert!(matches!(receiver.poll(), RxStep::NeedBytes));
    assert!(receiver.push_bytes(&packet[5..9]));
    assert!(matches!(receiver.poll(), RxStep::NeedBytes));
    assert!(receiver.push_bytes(&packet[9..]));
    assert_eq!(body_of(receiver.poll()), vec![7, 7, 7]);
}

#[test]
fn receiver_clears_on_overflow() {
    let mut receiver = PacketReceiver::new();
    assert!(receiver.push_bytes(&[0u8; 1000]));
    assert!(!receiver.push_bytes(&[0u8; 100]));
    assert!(matches!(receiver.poll(), RxStep::NeedBytes));
}

#[test]
fn desynced_seqnum_is_accepted() {
    let mut receiver = PacketReceiver::new();
    let packet = frame(1, 1000, &[1]);
    assert!(receiver.push_bytes(&packet));
    assert_eq!(body_of(receiver.poll()), vec![1]);
    // a resend of the same packet is dropped
    assert!(receiver.push_bytes(&packet));
    assert!(matches!(receiver.poll(), RxStep::OldPacket));
}

#[test]
fn first_packet_with_any_seqnum_is_received() {
    for seqnum in [0u16, 9, 65530, u16::MAX] {
        let mut receiver = PacketReceiver::new();
        let packet = frame(3, seqnum, &[5, 6]);
        for _ in 0..3 {
            assert!(receiver.push_bytes(&packet));
        }
        assert_eq!(body_of(receiver.poll()), vec![5, 6]);
        assert!(matches!(receiver.poll(), RxStep::OldPacket));
        assert!(matches!(receiver.poll(), RxStep::OldPacket));
        assert!(matches!(receiver.poll(), RxStep::NeedBytes));
    }
}

#[test]
fn only_own_events_are_forwarded() {
    let event = Event {
        source: Half::Left,
        source_button: 4,
        kind: EventKind::Press { button: Button::Key(Key::Q) },
    };
    match outgoing_event(event, Half::Left) {
        Some(Message::KeyboardEvent(e)) => {
            assert_eq!(e.source, Half::Left);
            assert_eq!(e.source_button, 4);
        }
        other => panic!("expected the event to be forwarded, got {other:?}"),
    }
    assert!(outgoing_event(event, Half::Right).is_none());
}
