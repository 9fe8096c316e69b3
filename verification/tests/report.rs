use tk_pie::button::Modifier;
use tk_pie::event::button::Event as ButtonEvent;
use tk_pie::keys::Key;
use tk_pie::usb::keyboard::report::{key_to_byte_mask, KeyboardReport};
use tk_pie::usb::keyboard::{ReportUpdate, Reports};

#[test]
fn key_bits() {
    assert_eq!(key_to_byte_mask(Key::A), (0, 0b0001_0000));
    assert_eq!(key_to_byte_mask(Key::ExSel), (20, 0b0001_0000));
    let mut r = KeyboardReport::empty();
    r.press_key(Key::A);
    r.press_key(Key::B);
    assert!(r.key_pressed(Key::A));
    assert!(r.key_pressed(Key::B));
    assert!(!r.key_pressed(Key::C));
    assert_eq!(r.keycodes[0], 0b0011_0000);
    r.release_key(Key::A);
    assert!(!r.key_pressed(Key::A));
    assert!(r.key_pressed(Key::B));
}

#[test]
fn modifier_bits() {
    let mut r = KeyboardReport::empty();
    r.press_modifier(Modifier::LShift);
    r.press_modifier(Modifier::RMod);
    assert_eq!(r.modifier, 0x82);
    assert!(r.modifier_pressed(Modifier::LShift));
    r.release_modifier(Modifier::LShift);
    assert!(!r.modifier_pressed(Modifier::LShift));
    assert!(r.modifier_pressed(Modifier::RMod));
    assert_eq!(u8::from(Modifier::RAlt), 0x40);
    assert_eq!(u8::from(Key::Space), 0x2C);
}

#[test]
fn report_bytes_and_descriptor() {
    let mut r = KeyboardReport::empty();
    r.press_modifier(Modifier::LCtrl);
    r.press_key(Key::Z);
    let bytes = r.as_bytes();
    assert_eq!(bytes.len(), 28);
    assert_eq!(bytes[0], 1);
    assert_eq!(bytes[1 + 0x1D / 8], 1 << (0x1D % 8));
    let d = KeyboardReport::desc();
    assert_eq!(d.len(), 53);
    assert_eq!(&d[..6], &[0x05, 0x01, 0x09, 0x06, 0xa1, 0x01]);
    assert_eq!(*d.last().unwrap(), 0xc0);
}

#[test]
fn release_waits_for_unsent_press() {
    let mut reports = Reports::new();
    assert_eq!(reports.apply(ButtonEvent::PressKey(Key::Q)), ReportUpdate::Applied);
    assert_eq!(reports.apply(ButtonEvent::ReleaseKey(Key::Q)), ReportUpdate::RetryAfterReport);
    let mut sent = reports.take_report();
    assert!(sent.key_pressed(Key::Q));
    assert_eq!(reports.apply(ButtonEvent::ReleaseKey(Key::Q)), ReportUpdate::Applied);
    let mut next = reports.take_report();
    assert!(!next.key_pressed(Key::Q));
    assert_eq!(reports.apply(ButtonEvent::Wait), ReportUpdate::WaitForReport);
    assert_eq!(reports.apply(ButtonEvent::PressMod(Modifier::LAlt)), ReportUpdate::Applied);
    assert_eq!(reports.apply(ButtonEvent::ReleaseMod(Modifier::LAlt)), ReportUpdate::RetryAfterReport);
}
