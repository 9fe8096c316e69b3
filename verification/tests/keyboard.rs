use core::time::Duration;

use tk_pie::button::{Button, LayerDir, LayerShift, Modifier};
use tk_pie::event::switch::{Event, EventKind};
use tk_pie::event::Half;
use tk_pie::keyboard::lights::{handle_event, idle_deadline, keypress_tick, lights_step, press_light, usb_transition, KeyLedState, LightsMode, LightsWake, RELEASE_FADE_PERCENT, UNTIL_IDLE_MS};
use tk_pie::keyboard::test::letter_to_key;
use tk_pie::keyboard::{check_layers, hold_layer, layer_after, next_layer, prev_layer, release_hold_layer, switch_button, SwitchButton, SWITCH_COUNT};
use tk_pie::keys::Key;
use tk_pie::layer::Layer;
use tk_pie::rgb::Rgb;
use tk_pie::usb::UsbEvent;

#[test]
fn letters_to_keys() {
    assert_eq!(letter_to_key('a'), Button::Key(Key::A));
    assert_eq!(letter_to_key('Z'), Button::Key(Key::Z));
    assert_eq!(letter_to_key(' '), Button::Key(Key::Space));
    assert_eq!(letter_to_key('\n'), Button::Key(Key::Return));
    assert_eq!(letter_to_key('1'), Button::Empty);
    assert_eq!(letter_to_key('é'), Button::Empty);
}

fn layer(n: usize) -> Layer {
    Layer { buttons: vec![Button::Key(Key::X); n] }
}

#[test]
fn switch_lookup() {
    let layers = vec![layer(18), Layer { buttons: vec![Button::Key(Key::Y)] }];
    assert!(matches!(switch_button(&layers, 1, 0), SwitchButton::Found(Button::Key(Key::Y))));
    assert!(matches!(switch_button(&layers, 1, 1), SwitchButton::NoButton));
    // an out of range layer falls back to the first
    assert!(matches!(switch_button(&layers, 7, 3), SwitchButton::Found(Button::Key(Key::X))));
    assert!(matches!(switch_button(&Vec::new(), 0, 0), SwitchButton::NoLayer));
}

#[test]
fn layer_checks() {
    assert!(check_layers(&Vec::new()).is_none());
    let layers = vec![layer(SWITCH_COUNT), layer(3), layer(SWITCH_COUNT), layer(20)];
    assert_eq!(check_layers(&layers), Some(vec![1, 3]));
}

#[test]
fn layer_arithmetic() {
    assert_eq!(next_layer(2, 3), 0);
    assert_eq!(next_layer(0, 3), 1);
    assert_eq!(prev_layer(0, 3), 2);
    assert_eq!(prev_layer(2, 3), 1);
    assert_eq!(hold_layer(1, 2, 4), 3);
    assert_eq!(hold_layer(3, 2, 4), 1);
    assert_eq!(release_hold_layer(3, 2, 4), 1);
    assert_eq!(release_hold_layer(1, 2, 4), 3);
}

#[test]
fn lights_follow_presses() {
    let mut lights = [KeyLedState::Off; SWITCH_COUNT];
    let press = Event { source: Half::Left, source_button: 2, kind: EventKind::Press { button: Button::Mod(Modifier::LCtrl) } };
    handle_event(&press, Half::Left, &mut lights);
    assert_eq!(lights[2], KeyLedState::Solid(Rgb::new(0, 0, 150)));
    // events of the other half are ignored
    let other = Event { source: Half::Right, source_button: 3, kind: press.kind };
    handle_event(&other, Half::Left, &mut lights);
    assert_eq!(lights[3], KeyLedState::Off);
    let release = Event {
        source: Half::Left,
        source_button: 2,
        kind: EventKind::Release { button: Button::Mod(Modifier::LCtrl), after: Duration::from_millis(3) },
    };
    handle_event(&release, Half::Left, &mut lights);
    assert_eq!(lights[2], KeyLedState::FadeBy(RELEASE_FADE_PERCENT));
    assert_eq!(press_light(Button::Empty), KeyLedState::Solid(Rgb::new(150, 0, 0)));
    assert_eq!(press_light(Button::Key(Key::A)), KeyLedState::Solid(Rgb::new(0, 150, 0)));
}

#[test]
fn fading_reaches_black() {
    let mut lights = [KeyLedState::Off; SWITCH_COUNT];
    lights[0] = KeyLedState::FadeBy(85);
    let mut led_map = [0usize; SWITCH_COUNT];
    for (i, l) in led_map.iter_mut().enumerate() {
        *l = SWITCH_COUNT - 1 - i;
    }
    let mut rgbs = [Rgb::new(0, 0, 0); SWITCH_COUNT];
    rgbs[SWITCH_COUNT - 1] = Rgb::new(100, 20, 1);
    keypress_tick(&mut lights, &led_map, &mut rgbs);
    assert_eq!(rgbs[SWITCH_COUNT - 1].components(), [85, 17, 0]);
    assert_eq!(lights[0], KeyLedState::FadeBy(85));
    for _ in 0..100 {
        keypress_tick(&mut lights, &led_map, &mut rgbs);
    }
    assert_eq!(lights[0], KeyLedState::Off);
    assert_eq!(rgbs[SWITCH_COUNT - 1].components(), [0, 0, 0]);
}

#[test]
fn release_fade_matches_float_scaling() {
    let led_map: [usize; SWITCH_COUNT] = core::array::from_fn(|i| i);
    for c in 0..=255u8 {
        let mut lights = [KeyLedState::Off; SWITCH_COUNT];
        lights[0] = KeyLedState::FadeBy(RELEASE_FADE_PERCENT);
        let mut rgbs = [Rgb::new(0, 0, 0); SWITCH_COUNT];
        rgbs[0] = Rgb::new(c, c, c);
        keypress_tick(&mut lights, &led_map, &mut rgbs);
        let expected = ((c as f32) * 0.85f32) as u8;
        assert_eq!(rgbs[0].components(), [expected, expected, expected]);
    }
}

#[test]
fn usb_power_transitions() {
    assert_eq!(usb_transition(UsbEvent::Configured(true), LightsMode::PoweredOff), Some(LightsMode::PoweringOn));
    assert_eq!(usb_transition(UsbEvent::Configured(true), LightsMode::PoweringOn), None);
    assert_eq!(usb_transition(UsbEvent::Suspended(true), LightsMode::Active), Some(LightsMode::PoweringOff));
    assert_eq!(usb_transition(UsbEvent::Reset, LightsMode::PoweredOff), None);
    assert_eq!(usb_transition(UsbEvent::Addressed(3), LightsMode::Idle), None);
}

#[test]
fn lights_modes_follow_wakes() {
    assert_eq!(lights_step(LightsMode::Active, LightsWake::IdleTimeout), (LightsMode::Idle, false));
    assert_eq!(lights_step(LightsMode::Idle, LightsWake::Switch), (LightsMode::Active, true));
    assert_eq!(lights_step(LightsMode::Active, LightsWake::Switch), (LightsMode::Active, true));
    assert_eq!(lights_step(LightsMode::Idle, LightsWake::AnimationDone), (LightsMode::Idle, false));
    assert_eq!(lights_step(LightsMode::PoweringOff, LightsWake::AnimationDone), (LightsMode::PoweredOff, false));
    assert_eq!(lights_step(LightsMode::PoweringOn, LightsWake::AnimationDone), (LightsMode::Active, true));
    assert_eq!(lights_step(LightsMode::PoweredOff, LightsWake::Switch), (LightsMode::PoweredOff, false));
    assert_eq!(
        lights_step(LightsMode::PoweredOff, LightsWake::Usb(UsbEvent::Configured(true))),
        (LightsMode::PoweringOn, false)
    );
    assert_eq!(
        lights_step(LightsMode::Active, LightsWake::Usb(UsbEvent::Addressed(3))),
        (LightsMode::Active, true)
    );
    assert_eq!(
        lights_step(LightsMode::Idle, LightsWake::Usb(UsbEvent::Suspended(true))),
        (LightsMode::PoweringOff, false)
    );
    assert_eq!(idle_deadline(1000), 31000);
    assert_eq!(UNTIL_IDLE_MS, 30000);
    assert_eq!(idle_deadline(u64::MAX - 5), u64::MAX);
}

#[test]
fn layer_buttons_choose_layers() {
    let press = |b| EventKind::Press { button: b };
    let release = |b| EventKind::Release { button: b, after: Duration::ZERO };
    let right = Button::Layer(LayerShift::Move, LayerDir::Right, 0);
    let up = Button::Layer(LayerShift::Move, LayerDir::Up, 0);
    let peek = Button::Layer(LayerShift::Peek, LayerDir::Down, 2);
    assert_eq!(layer_after(&press(right), 2, 3), Some(0));
    assert_eq!(layer_after(&press(up), 0, 3), Some(2));
    assert_eq!(layer_after(&press(peek), 0, 4), Some(2));
    assert_eq!(layer_after(&release(peek), 2, 4), Some(0));
    assert_eq!(layer_after(&release(peek), 1, 4), Some(3));
    assert_eq!(layer_after(&release(right), 1, 4), None);
    assert_eq!(layer_after(&press(Button::Key(Key::A)), 1, 4), None);
}
