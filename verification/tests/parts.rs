use tk_pie::atomics::word::{coord_word, word_coord};
use tk_pie::atomics::AtomicCoord;
use tk_pie::button::{Button, CompShift, LayerDir, LayerShift, Modifier};
use tk_pie::keys::Key;
use tk_pie::led::{dance_steps, Blink, LONG_MS, PAUSE_MS, SHORT_MS};
use tk_pie::usb::serial::UsbSerial;
use tk_pie::ws2812::{clock_divider_bits, CLOCK_FREQ, CYCLES_PER_BIT, WS2812_FREQ};

#[test]
fn button_display_texts() {
    assert_eq!(Button::Key(Key::A).display(), "A");
    assert_eq!(Button::Key(Key::Space).display(), "Space");
    assert_eq!(Button::Mod(Modifier::LShift).display(), "LShift");
    assert_eq!(Button::ModTap(Key::D, Modifier::LCtrl).display(), "D/⎈");
    assert_eq!(
        Button::Compose2(CompShift::Upper, Key::A, CompShift::Lower, Key::E).display(),
        "⎄ ⇧A E"
    );
    assert_eq!(
        Button::Compose3(CompShift::Variable, Key::A, CompShift::Lower, Key::B, CompShift::Upper, Key::C)
            .display(),
        "⎄ ⇧?A B ⇧C"
    );
    assert_eq!(Button::Layer(LayerShift::Peek, LayerDir::Up, 1).display(), "Lr");
    assert_eq!(Button::Empty.display(), "Ø");
}

#[test]
fn modifier_names_and_symbols() {
    assert_eq!(Modifier::RAlt.name(), "RAlt");
    assert_eq!(Modifier::RAlt.symbol(), "⎇");
    assert_eq!(Modifier::LMod.symbol(), "◆");
    assert_eq!(Key::Keypad0.name(), "Keypad0");
}

#[test]
fn default_clock_divider() {
    assert_eq!(clock_divider_bits(CLOCK_FREQ, WS2812_FREQ, CYCLES_PER_BIT), 0xFA0);
    // 125 MHz / 3 MHz = 41 + 171/256
    assert_eq!(clock_divider_bits(125_000_000, 1_000_000, 3), (41 << 8) | 170);
}

#[test]
fn led_dance_steps() {
    let steps = dance_steps(&[Blink::short(), Blink::long()]);
    assert_eq!(
        steps,
        vec![(true, SHORT_MS), (false, PAUSE_MS), (true, LONG_MS), (false, PAUSE_MS)]
    );
    assert_eq!(SHORT_MS, 200);
    assert_eq!(LONG_MS, 600);
    assert!(dance_steps(&[]).is_empty());
}

#[test]
fn usb_log_record() {
    let r = UsbSerial.log_record(1234, "INFO", "hello");
    assert_eq!(r.timestamp, 1234);
    assert_eq!(r.level, "INFO");
    assert_eq!(r.message, "hello");
}

#[test]
fn coord_words() {
    assert_eq!(coord_word(0x1234, 0xABCD), 0xABCD_1234);
    assert_eq!(word_coord(0xABCD_1234), (0x1234, 0xABCD));
    assert_eq!(word_coord(coord_word(u16::MAX, 0)), (u16::MAX, 0));
}

#[test]
fn atomic_coord_store_then_load() {
    let c = AtomicCoord::new();
    assert_eq!(c.load(atomic_polyfill::Ordering::SeqCst), (0, 0));
    c.store(7, 65000, atomic_polyfill::Ordering::SeqCst);
    assert_eq!(c.load(atomic_polyfill::Ordering::SeqCst), (7, 65000));
}
