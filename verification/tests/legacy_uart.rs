use tk_pie::hemicom::framing::RxStep;
use tk_pie::uart::{legacy_frame, LegacyReceiver, LegacySender};

#[test]
fn legacy_roundtrip() {
    let mut sender = LegacySender::new();
    let mut receiver = LegacyReceiver::new();
    let p = sender.next_packet(&[1, 2, 3]);
    assert_eq!(p.len(), 7);
    assert_eq!(p[0], 3);
    assert_eq!(p[1], 1);
    assert!(receiver.push_bytes(&[0x55]));
    assert!(receiver.push_bytes(&p));
    assert!(matches!(receiver.poll(), RxStep::BadHeader));
    match receiver.poll() {
        RxStep::Packet(b) => assert_eq!(b, vec![1, 2, 3]),
        other => panic!("unexpected {other:?}"),
    }
    assert!(matches!(receiver.poll(), RxStep::NeedBytes));
}

#[test]
fn legacy_full_length_body_truncates() {
    let body = [7u8; 256];
    let p = legacy_frame(9, &body);
    assert_eq!(p.len(), 4);
    assert_eq!(p[0], 0);
}
