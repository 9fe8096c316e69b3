use tk_pie::usb::serial::{needs_flush_packet, MessageParser, ReadOutcome, Unpacked};

#[test]
fn parser_collects_and_consumes() {
    let mut buf = [0u8; 8];
    let mut p = MessageParser::new(&mut buf);
    assert!(!p.timeout_armed());
    assert_eq!(p.on_read(&[1, 2, 3]), ReadOutcome::Read);
    assert_eq!(p.pending_bytes(), &[1, 2, 3]);
    assert!(p.after_unpack(Unpacked::Message { consumed: 2 }));
    assert_eq!(p.pending_bytes(), &[3]);
    assert!(!p.after_unpack(Unpacked::UnexpectedEof));
    assert_eq!(p.free_space(), 7);
    assert_eq!(p.on_read(&[]), ReadOutcome::Eof);
    assert!(!p.after_unpack(Unpacked::Corrupt));
    assert!(p.pending_bytes().is_empty());
    assert_eq!(p.on_read(&[9; 8]), ReadOutcome::Read);
    assert_eq!(p.on_read(&[]), ReadOutcome::Overflow);
    assert!(p.pending_bytes().is_empty());
    p.on_read(&[4]);
    p.on_timeout();
    assert!(p.pending_bytes().is_empty());
}

#[test]
fn flush_after_full_packet() {
    assert!(needs_flush_packet(64, true));
    assert!(!needs_flush_packet(64, false));
    assert!(!needs_flush_packet(10, true));
}
