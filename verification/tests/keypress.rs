use core::time::Duration;

use tk_pie::button::{Button, Modifier};
use tk_pie::event::button::Event as ButtonEvent;
use tk_pie::event::switch::{Event, EventKind};
use tk_pie::event::Half;
use tk_pie::keypress_handler::{press_event, release_event, KeypressHandler, MOD_TAP_TIME_MS};
use tk_pie::keys::Key;

const SHORT: u64 = 1;
const LONG: u64 = 160;

fn buttons() -> [Button; 4] {
    [
        Button::ModTap(Key::A, Modifier::LShift),
        Button::ModTap(Key::B, Modifier::LCtrl),
        Button::Key(Key::C),
        Button::ModTap(Key::D, Modifier::RShift),
    ]
}

/// Feeds switch presses and releases (button index, pressed, delay after) to a handler, firing
/// the ModTap timeouts that fall due, and returns everything sent.
fn run(input: &[(usize, bool, u64)]) -> Vec<ButtonEvent> {
    let buttons = buttons();
    let mut handler = KeypressHandler::new();
    let mut now: u64 = 1000;
    let mut out = Vec::new();
    for &(i, pressed, delay) in input {
        let kind = if pressed {
            EventKind::Press { button: buttons[i] }
        } else {
            EventKind::Release { button: buttons[i], after: Duration::ZERO }
        };
        let event = Event { source: Half::Left, source_button: i, kind };
        out.extend(handler.on_switch_event(event, now));
        now += delay;
        while let Some(deadline) = handler.prepare_timeout() {
            if deadline > now {
                break;
            }
            out.extend(handler.on_timeout());
        }
    }
    while handler.prepare_timeout().is_some() {
        out.extend(handler.on_timeout());
    }
    out
}

#[test]
fn modtap_mod() {
    let got = run(&[(0, true, SHORT), (1, true, SHORT), (1, false, SHORT), (0, false, SHORT)]);
    assert_eq!(
        got,
        vec![
            ButtonEvent::PressMod(Modifier::LShift),
            ButtonEvent::PressKey(Key::B),
            ButtonEvent::ReleaseKey(Key::B),
            ButtonEvent::ReleaseMod(Modifier::LShift),
        ]
    );
}

#[test]
fn modtap_tap() {
    let got = run(&[(0, true, SHORT), (1, true, SHORT), (0, false, SHORT), (1, false, SHORT)]);
    assert_eq!(
        got,
        vec![
            ButtonEvent::PressKey(Key::A),
            ButtonEvent::ReleaseKey(Key::A),
            ButtonEvent::PressKey(Key::B),
            ButtonEvent::ReleaseKey(Key::B),
        ]
    );
}

#[test]
fn modtap_tap_2x() {
    let got = run(&[
        (0, true, SHORT),
        (2, true, SHORT),
        (2, false, SHORT),
        (0, false, SHORT),
        (0, true, SHORT),
        (2, true, SHORT),
        (2, false, SHORT),
        (0, false, SHORT),
    ]);
    assert_eq!(
        got,
        vec![
            ButtonEvent::PressMod(Modifier::LShift),
            ButtonEvent::PressKey(Key::C),
            ButtonEvent::ReleaseKey(Key::C),
            ButtonEvent::ReleaseMod(Modifier::LShift),
            ButtonEvent::PressMod(Modifier::LShift),
            ButtonEvent::PressKey(Key::C),
            ButtonEvent::ReleaseKey(Key::C),
            ButtonEvent::ReleaseMod(Modifier::LShift),
        ]
    );
}

#[test]
fn modtap_double_shift() {
    let got = run(&[(0, true, LONG), (3, true, SHORT), (0, false, LONG), (3, false, SHORT)]);
    assert_eq!(
        got,
        vec![
            ButtonEvent::PressMod(Modifier::LShift),
            ButtonEvent::ReleaseMod(Modifier::LShift),
            ButtonEvent::PressMod(Modifier::RShift),
            ButtonEvent::ReleaseMod(Modifier::RShift),
        ]
    );
}

#[test]
fn plain_key_is_sent_at_once() {
    let mut handler = KeypressHandler::new();
    let press = Event { source: Half::Right, source_button: 4, kind: EventKind::Press { button: Button::Key(Key::Z) } };
    assert_eq!(handler.on_switch_event(press, 5), vec![ButtonEvent::PressKey(Key::Z)]);
    assert_eq!(handler.queue_len(), 0);
    assert_eq!(handler.prepare_timeout(), None);
}

#[test]
fn modtap_deadline() {
    let mut handler = KeypressHandler::new();
    let press = Event { source: Half::Left, source_button: 0, kind: EventKind::Press { button: buttons()[0] } };
    assert!(handler.on_switch_event(press, 40).is_empty());
    assert_eq!(handler.queue_len(), 1);
    assert_eq!(handler.prepare_timeout(), Some(40 + MOD_TAP_TIME_MS));
    assert_eq!(handler.on_timeout(), vec![ButtonEvent::PressMod(Modifier::LShift)]);
    assert_eq!(handler.queue_len(), 0);
}

#[test]
fn duplicate_press_is_queued_once() {
    let mut handler = KeypressHandler::new();
    let press = Event { source: Half::Left, source_button: 0, kind: EventKind::Press { button: buttons()[0] } };
    handler.on_switch_event(press.clone(), 1);
    handler.on_switch_event(press, 2);
    assert_eq!(handler.queue_len(), 1);
}

#[test]
fn press_and_release_events() {
    assert_eq!(press_event(&Button::Mod(Modifier::RAlt)), Some(ButtonEvent::PressMod(Modifier::RAlt)));
    assert_eq!(release_event(&Button::ModTap(Key::A, Modifier::LMod)), Some(ButtonEvent::ReleaseMod(Modifier::LMod)));
    assert_eq!(press_event(&Button::Empty), None);
}
