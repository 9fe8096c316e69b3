//! What the LEDs under the switches show.
//!
//! A pressed switch lights up in a color that depends on its button; when it is released its
//! light fades out frame by frame. The whole board powers its lights on and off as the USB
//! host enables or suspends the keyboard.

use vstd::prelude::*;

use super::SWITCH_COUNT;
use crate::button::Button;
use crate::event::switch;
use crate::event::Half;
use crate::rgb::Rgb;
use crate::usb::UsbEvent;

verus! {

/// How much of its brightness a released switch's light keeps each frame, in percent.
pub const RELEASE_FADE_PERCENT: u8 = 85;

/// The state of one switch's light.
#[derive(Clone, Copy, Debug, PartialEq, Eq, Structural)]
pub enum KeyLedState {
    /// Dark.
    Off,
    /// A steady color.
    Solid(Rgb),
    /// Fading: each frame the color keeps this percentage of its brightness.
    FadeBy(u8),
}

/// The light of a switch while it is pressed.
pub open spec fn spec_press_light(b: Button) -> KeyLedState {
    match b {
        Button::Key(..) => KeyLedState::Solid(Rgb::new_spec(0, 150, 0)),
        Button::Mod(..) => KeyLedState::Solid(Rgb::new_spec(0, 0, 150)),
        Button::ModTap(..) => KeyLedState::Solid(Rgb::new_spec(0, 0, 150)),
        Button::Compose2(..) | Button::Compose3(..) => KeyLedState::Solid(Rgb::new_spec(0, 100, 100)),
        Button::Layer(..) => KeyLedState::Solid(Rgb::new_spec(120, 0, 120)),
        _ => KeyLedState::Solid(Rgb::new_spec(150, 0, 0)),
    }
}

/// The light of a switch while it is pressed.
pub fn press_light(b: Button) -> (s: KeyLedState)
    ensures
        s == spec_press_light(b),
{
    match b {
        Button::Key(..) => KeyLedState::Solid(Rgb::new(0, 150, 0)),
        Button::Mod(..) => KeyLedState::Solid(Rgb::new(0, 0, 150)),
        Button::ModTap(..) => KeyLedState::Solid(Rgb::new(0, 0, 150)),
        Button::Compose2(..) | Button::Compose3(..) => KeyLedState::Solid(Rgb::new(0, 100, 100)),
        Button::Layer(..) => KeyLedState::Solid(Rgb::new(120, 0, 120)),
        _ => KeyLedState::Solid(Rgb::new(150, 0, 0)),
    }
}

/// Sets the light of the switch that `event` comes from, if it is a switch of this half:
/// lit while pressed, fading once released.
pub fn handle_event(event: &switch::Event, this_half: Half, lights: &mut [KeyLedState; SWITCH_COUNT])
    ensures
        event.source != this_half || event.source_button >= SWITCH_COUNT ==> final(lights)@ == old(
            lights,
        )@,
        event.source == this_half && event.source_button < SWITCH_COUNT ==> final(lights)@ == old(
            lights,
        )@.update(
            event.source_button as int,
            match event.kind {
                switch::EventKind::Press { button } => spec_press_light(button),
                switch::EventKind::Release { .. } => KeyLedState::FadeBy(RELEASE_FADE_PERCENT),
            },
        ),
{
    let light = match event.kind {
        switch::EventKind::Press { button } => press_light(button),
        switch::EventKind::Release { .. } => KeyLedState::FadeBy(RELEASE_FADE_PERCENT),
    };
    if event.source != this_half {
        return;
    }
    if event.source_button >= SWITCH_COUNT {
        return;
    }
    lights[event.source_button] = light;
}

/// A component faded to `percent` of itself (at most 100), rounded down.
pub open spec fn spec_fade(c: u8, percent: u8) -> u8 {
    let p = if percent > 100 { 100 } else { percent };
    (c * p / 100) as u8
}

fn fade(c: u8, percent: u8) -> (r: u8)
    ensures
        r == spec_fade(c, percent),
{
    let p: u16 = if percent > 100 { 100 } else { percent as u16 };
    assert(c * p <= 25500) by (nonlinear_arith)
        requires
            c <= 255,
            p <= 100,
    ;
    ((c as u16 * p) / 100) as u8
}

/// The color of an LED and the state of its switch's light after one frame.
pub open spec fn spec_tick(light: KeyLedState, rgb: Rgb) -> (KeyLedState, Rgb) {
    match light {
        KeyLedState::Off => (light, Rgb::new_spec(0, 0, 0)),
        KeyLedState::FadeBy(p) => {
            let (r, g, b) = rgb.spec_components();
            let faded = Rgb::new_spec(spec_fade(r, p), spec_fade(g, p), spec_fade(b, p));
            (if faded == Rgb::new_spec(0, 0, 0) { KeyLedState::Off } else { light }, faded)
        },
        KeyLedState::Solid(color) => (light, color),
    }
}

/// The lights and LED colors after handling switch `i`: if its LED exists, the LED shows
/// the switch's light for one frame.
pub open spec fn tick_switch(lights: Seq<KeyLedState>, rgbs: Seq<Rgb>, led: usize, i: int) -> (Seq<
    KeyLedState,
>, Seq<Rgb>) {
    if led < rgbs.len() {
        let (l, c) = spec_tick(lights[i], rgbs[led as int]);
        (lights.update(i, l), rgbs.update(led as int, c))
    } else {
        (lights, rgbs)
    }
}

/// The lights and LED colors after handling switches `0..n` in order.
pub open spec fn tick_upto(lights: Seq<KeyLedState>, rgbs: Seq<Rgb>, led_map: Seq<usize>, n: nat) -> (Seq<
    KeyLedState,
>, Seq<Rgb>)
    decreases n,
{
    if n == 0 {
        (lights, rgbs)
    } else {
        let (l, r) = tick_upto(lights, rgbs, led_map, (n - 1) as nat);
        tick_switch(l, r, led_map[n - 1], n - 1)
    }
}

/// Advances the lights by one frame: switch by switch, the LED of each switch (`led_map`
/// gives its index among the LEDs) shows the switch's light, and fading lights that reach
/// black go off.
pub fn keypress_tick(
    lights: &mut [KeyLedState; SWITCH_COUNT],
    led_map: &[usize; SWITCH_COUNT],
    rgbs: &mut [Rgb; SWITCH_COUNT],
)
    ensures
        final(lights)@ == tick_upto(old(lights)@, old(rgbs)@, led_map@, SWITCH_COUNT as nat).0,
        final(rgbs)@ == tick_upto(old(lights)@, old(rgbs)@, led_map@, SWITCH_COUNT as nat).1,
{
    let mut button: usize = 0;
    while button < SWITCH_COUNT
        invariant
            button <= SWITCH_COUNT,
            lights@ == tick_upto(old(lights)@, old(rgbs)@, led_map@, button as nat).0,
            rgbs@ == tick_upto(old(lights)@, old(rgbs)@, led_map@, button as nat).1,
        decreases SWITCH_COUNT - button,
    {
        let led_id = led_map[button];
        if led_id < SWITCH_COUNT {
            let light = lights[button];
            let rgb = rgbs[led_id];
            match light {
                KeyLedState::Off => {
                    rgbs[led_id] = Rgb::new(0, 0, 0);
                },
                KeyLedState::FadeBy(p) => {
                    let c = rgb.components();
                    let faded = Rgb::new(fade(c[0], p), fade(c[1], p), fade(c[2], p));
                    rgbs[led_id] = faded;
                    if faded == Rgb::new(0, 0, 0) {
                        lights[button] = KeyLedState::Off;
                    }
                },
                KeyLedState::Solid(color) => {
                    rgbs[led_id] = color;
                },
            }
        }
        button = button + 1;
        assert(lights@ =~= tick_upto(old(lights)@, old(rgbs)@, led_map@, button as nat).0);
        assert(rgbs@ =~= tick_upto(old(lights)@, old(rgbs)@, led_map@, button as nat).1);
    }
}

/// When every switch has its own LED, one frame shows each switch's light on its LED
/// independently of the other switches: the LED of switch `i` and the light of switch `i`
/// become exactly one step of that switch's light from its LED's previous color.
pub proof fn law_tick_independent(
    lights: Seq<KeyLedState>,
    rgbs: Seq<Rgb>,
    led_map: Seq<usize>,
    i: int,
)
    requires
        lights.len() == SWITCH_COUNT,
        rgbs.len() == SWITCH_COUNT,
        led_map.len() == SWITCH_COUNT,
        forall|a: int, b: int| 0 <= a < b < SWITCH_COUNT ==> led_map[a] != led_map[b],
        0 <= i < SWITCH_COUNT,
        led_map[i] < SWITCH_COUNT,
    ensures
        ({
            let (l, r) = tick_upto(lights, rgbs, led_map, SWITCH_COUNT as nat);
            (l[i], r[led_map[i] as int]) == spec_tick(lights[i], rgbs[led_map[i] as int])
        }),
{
    lemma_tick_prefix(lights, rgbs, led_map, SWITCH_COUNT as nat);
}

/// One frame, seen from one switch that has its own LED: a held switch's LED shows the
/// switch's color and the switch stays lit; a dark switch's LED goes black; a fading switch's
/// LED keeps `p` percent (at most 100, rounded down) of each component of its previous color,
/// and the switch goes dark exactly when that leaves the LED black.
pub proof fn law_tick_shows_light(
    lights: Seq<KeyLedState>,
    rgbs: Seq<Rgb>,
    led_map: Seq<usize>,
    i: int,
)
    requires
        lights.len() == SWITCH_COUNT,
        rgbs.len() == SWITCH_COUNT,
        led_map.len() == SWITCH_COUNT,
        forall|a: int, b: int| 0 <= a < b < SWITCH_COUNT ==> led_map[a] != led_map[b],
        0 <= i < SWITCH_COUNT,
        led_map[i] < SWITCH_COUNT,
    ensures
        ({
            let (l, r) = tick_upto(lights, rgbs, led_map, SWITCH_COUNT as nat);
            let before = rgbs[led_map[i] as int].spec_components();
            let after = r[led_map[i] as int].spec_components();
            &&& lights[i] matches KeyLedState::Solid(c) ==> r[led_map[i] as int] == c && l[i] == lights[i]
            &&& lights[i] is Off ==> after == (0u8, 0u8, 0u8) && l[i] is Off
            &&& lights[i] matches KeyLedState::FadeBy(p) ==> {
                let q = if p > 100 { 100 } else { p as int };
                &&& after.0 == before.0 * q / 100
                &&& after.1 == before.1 * q / 100
                &&& after.2 == before.2 * q / 100
                &&& (l[i] is Off <==> after == (0u8, 0u8, 0u8))
                &&& !(l[i] is Off) ==> l[i] == lights[i]
            }
        }),
{
    law_tick_independent(lights, rgbs, led_map, i);
    let led = led_map[i] as int;
    let (l, r) = tick_upto(lights, rgbs, led_map, SWITCH_COUNT as nat);
    match lights[i] {
        KeyLedState::Off => {
            crate::rgb::lemma_rgb_components(0, 0, 0);
        },
        KeyLedState::FadeBy(p) => {
            let (cr, cg, cb) = rgbs[led].spec_components();
            let q: int = if p > 100 { 100 } else { p as int };
            assert(cr * q / 100 <= 255 && cg * q / 100 <= 255 && cb * q / 100 <= 255) by (nonlinear_arith)
                requires
                    0 <= q <= 100,
                    cr <= 255,
                    cg <= 255,
                    cb <= 255,
            ;
            let fr = spec_fade(cr, p);
            let fg = spec_fade(cg, p);
            let fb = spec_fade(cb, p);
            crate::rgb::lemma_rgb_components(fr, fg, fb);
            crate::rgb::lemma_rgb_components(0, 0, 0);
        },
        KeyLedState::Solid(c) => {},
    }
}

proof fn lemma_tick_prefix(lights: Seq<KeyLedState>, rgbs: Seq<Rgb>, led_map: Seq<usize>, n: nat)
    requires
        lights.len() == SWITCH_COUNT,
        rgbs.len() == SWITCH_COUNT,
        led_map.len() == SWITCH_COUNT,
        forall|a: int, b: int| 0 <= a < b < SWITCH_COUNT ==> led_map[a] != led_map[b],
        n <= SWITCH_COUNT,
    ensures
        ({
            let (l, r) = tick_upto(lights, rgbs, led_map, n);
            &&& l.len() == SWITCH_COUNT
            &&& r.len() == SWITCH_COUNT
            &&& forall|k: int|
                0 <= k < n && led_map[k] < SWITCH_COUNT ==> (#[trigger] l[k], r[led_map[k] as int])
                    == spec_tick(lights[k], rgbs[led_map[k] as int])
            &&& forall|k: int| n <= k < SWITCH_COUNT ==> #[trigger] l[k] == lights[k]
            &&& forall|j: int|
                0 <= j < SWITCH_COUNT && (forall|k: int| 0 <= k < n ==> led_map[k] != j) ==> #[trigger] r[j]
                    == rgbs[j]
        }),
    decreases n,
{
    if n > 0 {
        lemma_tick_prefix(lights, rgbs, led_map, (n - 1) as nat);
        let (l0, r0) = tick_upto(lights, rgbs, led_map, (n - 1) as nat);
        let m = n - 1;
        let (l, r) = tick_upto(lights, rgbs, led_map, n);
        assert((l, r) == tick_switch(l0, r0, led_map[m], m));
        if led_map[m] < SWITCH_COUNT {
            assert forall|j: int| 0 <= j < m implies led_map[j] != led_map[m] by {}
            assert(r0[led_map[m] as int] == rgbs[led_map[m] as int]);
        }
        assert forall|k: int|
            0 <= k < n && led_map[k] < SWITCH_COUNT implies (#[trigger] l[k], r[led_map[k] as int])
            == spec_tick(lights[k], rgbs[led_map[k] as int]) by {
            if k < m {
                assert(led_map[k] != led_map[m]);
            }
        }
        assert forall|j: int|
            0 <= j < SWITCH_COUNT && (forall|k: int| 0 <= k < n ==> led_map[k] != j) implies #[trigger] r[j]
            == rgbs[j] by {
            assert(led_map[m] != j);
        }
    }
}

/// While fading by less than 100 percent, every nonzero component gets darker each frame.
pub proof fn law_fade_darkens(c: u8, percent: u8)
    requires
        percent < 100,
        c > 0,
    ensures
        spec_fade(c, percent) < c,
{
    assert(c * percent / 100 < c) by (nonlinear_arith)
        requires
            c > 0,
            percent < 100,
    ;
}

/// The state of the whole board's lights, as far as USB power is concerned.
#[derive(Clone, Copy, Debug, PartialEq, Eq, Structural)]
pub enum LightsMode {
    Active,
    PoweringOff,
    PoweringOn,
    PoweredOff,
    Idle,
}

/// Whether a USB event enables the lights (`Some(true)`), disables them (`Some(false)`), or
/// neither.
pub open spec fn spec_usb_enables(event: UsbEvent) -> Option<bool> {
    match event {
        UsbEvent::Suspended(false) | UsbEvent::Configured(true) => Some(true),
        UsbEvent::Configured(false) | UsbEvent::Suspended(true) | UsbEvent::Reset => Some(false),
        _ => None,
    }
}

/// The mode that a USB event starts, if it starts one: an animation that powers the lights
/// on or off, unless that is already under way (or the lights are already off).
pub open spec fn spec_usb_transition(event: UsbEvent, mode: LightsMode) -> Option<LightsMode> {
    match spec_usb_enables(event) {
        None => None,
        Some(enabled) => match (mode, enabled) {
            (LightsMode::PoweringOn, true) => None,
            (LightsMode::PoweringOff, false) => None,
            (LightsMode::PoweredOff, false) => None,
            (_, true) => Some(LightsMode::PoweringOn),
            (_, false) => Some(LightsMode::PoweringOff),
        },
    }
}

/// The mode that a USB event starts, if it starts one.
pub fn usb_transition(event: UsbEvent, mode: LightsMode) -> (r: Option<LightsMode>)
    ensures
        r == spec_usb_transition(event, mode),
{
    let usb_enabled = match event {
        UsbEvent::Suspended(false) | UsbEvent::Configured(true) => true,
        UsbEvent::Configured(false) | UsbEvent::Suspended(true) | UsbEvent::Reset => false,
        _ => {
            return None;
        },
    };
    match (mode, usb_enabled) {
        (LightsMode::PoweringOn, true) => None,
        (LightsMode::PoweringOff, false) => None,
        (LightsMode::PoweredOff, false) => None,
        (_, true) => Some(LightsMode::PoweringOn),
        (_, false) => Some(LightsMode::PoweringOff),
    }
}

/// Repeating a USB event changes nothing: once an event has started a power animation, the
/// same event again starts nothing.
pub proof fn law_usb_transition_idempotent(event: UsbEvent, mode: LightsMode)
    ensures
        spec_usb_transition(event, mode) matches Some(m) ==> spec_usb_transition(event, m) is None,
{
}

/// How long the keys must stay untouched before the idle animation starts, in milliseconds.
pub const UNTIL_IDLE_MS: u64 = 30000;

/// What woke the lights task.
#[derive(Clone, Copy, Debug, PartialEq, Eq, Structural)]
pub enum LightsWake {
    /// A switch of the keyboard was pressed or released.
    Switch,
    /// The USB host sent an event.
    Usb(UsbEvent),
    /// The keys have been untouched until the idle deadline.
    IdleTimeout,
    /// The running animation came to its end.
    AnimationDone,
}

/// The mode after a wake: a USB event may start a power animation; the idle deadline turns
/// active lights idle; a switch wakes idle lights; a power animation that ends leaves the
/// lights off (powering off) or active (powering on). Anything else keeps the mode.
pub open spec fn spec_lights_mode(mode: LightsMode, wake: LightsWake) -> LightsMode {
    match wake {
        LightsWake::Usb(e) => match spec_usb_transition(e, mode) {
            Some(m) => m,
            None => mode,
        },
        LightsWake::Switch => if mode == LightsMode::Idle {
            LightsMode::Active
        } else {
            mode
        },
        LightsWake::IdleTimeout => if mode == LightsMode::Active {
            LightsMode::Idle
        } else {
            mode
        },
        LightsWake::AnimationDone => match mode {
            LightsMode::PoweringOff => LightsMode::PoweredOff,
            LightsMode::PoweringOn => LightsMode::Active,
            _ => mode,
        },
    }
}

/// Whether the idle deadline starts anew: the lights are active after the wake, and either
/// they just became active or a switch or the USB host showed activity.
pub open spec fn spec_restarts_idle(mode: LightsMode, wake: LightsWake) -> bool {
    &&& spec_lights_mode(mode, wake) == LightsMode::Active
    &&& (mode != LightsMode::Active || wake is Switch || wake is Usb)
}

/// The next mode of the lights after a wake, and whether the idle deadline starts anew.
pub fn lights_step(mode: LightsMode, wake: LightsWake) -> (r: (LightsMode, bool))
    ensures
        r.0 == spec_lights_mode(mode, wake),
        r.1 == spec_restarts_idle(mode, wake),
{
    let next = match wake {
        LightsWake::Usb(e) => match usb_transition(e, mode) {
            Some(m) => m,
            None => mode,
        },
        LightsWake::Switch => if mode == LightsMode::Idle {
            LightsMode::Active
        } else {
            mode
        },
        LightsWake::IdleTimeout => if mode == LightsMode::Active {
            LightsMode::Idle
        } else {
            mode
        },
        LightsWake::AnimationDone => match mode {
            LightsMode::PoweringOff => LightsMode::PoweredOff,
            LightsMode::PoweringOn => LightsMode::Active,
            _ => mode,
        },
    };
    let restart = next == LightsMode::Active && (mode != LightsMode::Active || match wake {
        LightsWake::Switch | LightsWake::Usb(_) => true,
        _ => false,
    });
    (next, restart)
}

/// When the idle animation starts if nothing happens after `now_ms`: [UNTIL_IDLE_MS] later
/// (the largest time if that does not fit).
pub fn idle_deadline(now_ms: u64) -> (d: u64)
    ensures
        d == if now_ms + UNTIL_IDLE_MS > u64::MAX { u64::MAX as int } else { now_ms + UNTIL_IDLE_MS },
{
    now_ms.saturating_add(UNTIL_IDLE_MS)
}

/// Active lights go idle when the keys stay untouched until the deadline, idle lights wake
/// on a key, and every key or USB activity while active starts the idle deadline anew.
pub proof fn law_idle_and_wake(e: UsbEvent)
    ensures
        spec_lights_mode(LightsMode::Active, LightsWake::IdleTimeout) == LightsMode::Idle,
        !spec_restarts_idle(LightsMode::Active, LightsWake::IdleTimeout),
        spec_lights_mode(LightsMode::Idle, LightsWake::Switch) == LightsMode::Active,
        spec_restarts_idle(LightsMode::Idle, LightsWake::Switch),
        spec_lights_mode(LightsMode::Active, LightsWake::Switch) == LightsMode::Active,
        spec_restarts_idle(LightsMode::Active, LightsWake::Switch),
        spec_lights_mode(LightsMode::Active, LightsWake::Usb(e)) == LightsMode::Active
            ==> spec_restarts_idle(LightsMode::Active, LightsWake::Usb(e)),
{
}

/// Lights that are off stay off until the USB host enables them: no switch, timeout or
/// animation end turns them on.
pub proof fn law_powered_off_waits_for_usb(wake: LightsWake)
    requires
        !(wake is Usb),
    ensures
        spec_lights_mode(LightsMode::PoweredOff, wake) == LightsMode::PoweredOff,
{
}

} // verus!
