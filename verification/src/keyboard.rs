//! The keyboard half: which button a switch acts as, and the layer arithmetic.

use vstd::prelude::*;

use crate::button::{Button, LayerDir, LayerShift};
use crate::event::switch;
use crate::layer::Layer;

pub mod lights;
pub mod test;

verus! {

/// The number of tasks that may listen to keyboard events, besides the keyboard's own.
pub const KB_SUBSCRIBERS: usize = 2;

/// How long a `ModTap` must be held down before it acts as its modifier, in milliseconds.
pub const MOD_TAP_TIME_MS: u64 = 150;

/// The number of switches on one keyboard half.
pub const SWITCH_COUNT: usize = 18;

/// The number of layers, as the 16-bit count that the layer index is compared with.
pub open spec fn layer_count(layers: Seq<Layer>) -> u16 {
    (layers.len() % 0x10000) as u16
}

/// The layer to look a switch up in: the current one, or the first if the current one is
/// out of range.
pub open spec fn effective_layer(layers: Seq<Layer>, current_layer: u16) -> u16 {
    if current_layer >= layer_count(layers) {
        0
    } else {
        current_layer
    }
}

/// What a switch acts as, found by [switch_button].
#[derive(Debug)]
pub enum SwitchButton {
    /// The button that the switch acts as.
    Found(Button),
    /// The layer to look in does not exist; the current layer should be reset to the first.
    NoLayer,
    /// The layer defines no button for the switch.
    NoButton,
}

/// The button that switch `switch_num` acts as on layer `current_layer`.
pub fn switch_button(layers: &Vec<Layer>, current_layer: u16, switch_num: usize) -> (r:
    SwitchButton)
    ensures
        ({
            let l = effective_layer(layers@, current_layer) as int;
            if l >= layers@.len() {
                r is NoLayer
            } else if switch_num >= layers@[l].buttons@.len() {
                r is NoButton
            } else {
                r == SwitchButton::Found(layers@[l].buttons@[switch_num as int])
            }
        }),
{
    let layer_count = (layers.len() % 0x10000) as u16;
    let mut current_layer = current_layer;
    if current_layer >= layer_count {
        // the current layer was out of bounds for some reason
        current_layer = 0;
    }
    let l = current_layer as usize;
    if l >= layers.len() {
        return SwitchButton::NoLayer;
    }
    let buttons = &layers[l].buttons;
    if switch_num >= buttons.len() {
        return SwitchButton::NoButton;
    }
    SwitchButton::Found(buttons[switch_num])
}

/// Which layers need a warning when a keyboard is set up: `None` if there are no layers at
/// all (then the keyboard cannot be set up), else the indices of the layers that do not
/// define exactly one button per switch.
pub fn check_layers(layers: &Vec<Layer>) -> (r: Option<Vec<usize>>)
    ensures
        r is None <==> layers@.len() == 0,
        r matches Some(bad) ==> {
            &&& forall|i: int| 0 <= i < bad@.len() ==> #[trigger] bad@[i] < layers@.len()
                && layers@[bad@[i] as int].buttons@.len() != SWITCH_COUNT
            &&& forall|i: int, j: int| 0 <= i < j < bad@.len() ==> bad@[i] < bad@[j]
            &&& forall|l: int|
                0 <= l < layers@.len() && #[trigger] layers@[l].buttons@.len() != SWITCH_COUNT
                    ==> bad@.contains(l as usize)
        },
{
    if layers.len() == 0 {
        return None;
    }
    let mut bad: Vec<usize> = Vec::new();
    let mut i: usize = 0;
    while i < layers.len()
        invariant
            i <= layers@.len(),
            forall|k: int| 0 <= k < bad@.len() ==> #[trigger] bad@[k] < i && layers@[bad@[k] as int].buttons@.len()
                != SWITCH_COUNT,
            forall|k: int, j: int| 0 <= k < j < bad@.len() ==> bad@[k] < bad@[j],
            forall|l: int|
                0 <= l < i && #[trigger] layers@[l].buttons@.len() != SWITCH_COUNT
                    ==> bad@.contains(l as usize),
        decreases layers@.len() - i,
    {
        let ghost old_bad = bad@;
        if layers[i].buttons.len() != SWITCH_COUNT {
            bad.push(i);
        }
        assert forall|l: int|
            0 <= l < i + 1 && #[trigger] layers@[l].buttons@.len() != SWITCH_COUNT implies bad@.contains(
                l as usize,
            ) by {
            if l < i {
                let k = choose|k: int| 0 <= k < old_bad.len() && old_bad[k] == l as usize;
                assert(bad@[k] == old_bad[k]);
            } else {
                assert(bad@[bad@.len() - 1] == i);
            }
        }
        i = i + 1;
    }
    Some(bad)
}

/// The layer after the current one, wrapping around to the first.
pub fn next_layer(layer: u16, layer_count: u16) -> (r: u16)
    requires
        layer_count > 0,
    ensures
        r == (if layer == u16::MAX { 0int } else { layer + 1 }) % (layer_count as int),
        r < layer_count,
{
    layer.wrapping_add(1) % layer_count
}

/// The layer before the current one, wrapping around to the last.
pub fn prev_layer(layer: u16, layer_count: u16) -> (r: u16)
    requires
        layer_count > 0,
    ensures
        r == (if layer == 0 { layer_count - 1 } else { layer - 1 }),
{
    match layer.checked_sub(1) {
        Some(l) => l,
        None => layer_count - 1,
    }
}

/// The layer `shift` layers after the current one, while a layer button is held, wrapping
/// around.
pub fn hold_layer(layer: u16, shift: u16, layer_count: u16) -> (r: u16)
    requires
        layer_count > 0,
    ensures
        r == ((layer + shift) % 0x10000) % (layer_count as int),
        r < layer_count,
{
    layer.wrapping_add(shift) % layer_count
}

/// The layer when a held layer button is released: `shift` layers back, or the last layer
/// if that would go below the first.
pub fn release_hold_layer(layer: u16, shift: u16, layer_count: u16) -> (r: u16)
    requires
        layer_count > 0,
    ensures
        r == (if layer >= shift { layer - shift } else { layer_count - 1 }),
{
    match layer.checked_sub(shift) {
        Some(l) => l,
        None => layer_count - 1,
    }
}

/// The layer after the current one, wrapping around to the first.
pub open spec fn spec_next_layer(layer: u16, layer_count: u16) -> u16 {
    ((if layer == u16::MAX { 0int } else { layer + 1 }) % (layer_count as int)) as u16
}

/// The layer before the current one, wrapping around to the last.
pub open spec fn spec_prev_layer(layer: u16, layer_count: u16) -> u16 {
    (if layer == 0 { layer_count - 1 } else { layer - 1 }) as u16
}

/// The layer `shift` layers after the current one, wrapping around.
pub open spec fn spec_hold_layer(layer: u16, shift: u16, layer_count: u16) -> u16 {
    (((layer + shift) % 0x10000) % (layer_count as int)) as u16
}

/// The layer when a held layer button is released.
pub open spec fn spec_release_hold_layer(layer: u16, shift: u16, layer_count: u16) -> u16 {
    (if layer >= shift { layer - shift } else { layer_count - 1 }) as u16
}

/// The layer that a switch event leads to, if it changes the layer: pressing a moving layer
/// button goes to the next layer (right or down) or the previous one (left or up); pressing
/// a peeking layer button shifts by its count, and releasing it shifts back. Every other
/// event leaves the layer alone.
pub open spec fn spec_layer_after(kind: switch::EventKind, layer: u16, layer_count: u16) -> Option<u16> {
    match kind {
        switch::EventKind::Press { button } => match button {
            Button::Layer(LayerShift::Move, LayerDir::Right, _) | Button::Layer(
                LayerShift::Move,
                LayerDir::Down,
                _,
            ) => Some(spec_next_layer(layer, layer_count)),
            Button::Layer(LayerShift::Move, LayerDir::Left, _) | Button::Layer(
                LayerShift::Move,
                LayerDir::Up,
                _,
            ) => Some(spec_prev_layer(layer, layer_count)),
            Button::Layer(LayerShift::Peek, _, shift) => Some(spec_hold_layer(layer, shift, layer_count)),
            _ => None,
        },
        switch::EventKind::Release { button, .. } => match button {
            Button::Layer(LayerShift::Peek, _, shift) => Some(
                spec_release_hold_layer(layer, shift, layer_count),
            ),
            _ => None,
        },
    }
}

/// The layer that a switch event leads to, or `None` if it does not change the layer.
pub fn layer_after(kind: &switch::EventKind, layer: u16, layer_count: u16) -> (r: Option<u16>)
    requires
        layer_count > 0,
    ensures
        r == spec_layer_after(*kind, layer, layer_count),
{
    match *kind {
        switch::EventKind::Press { button } => match button {
            Button::Layer(LayerShift::Move, LayerDir::Right, _) | Button::Layer(
                LayerShift::Move,
                LayerDir::Down,
                _,
            ) => Some(next_layer(layer, layer_count)),
            Button::Layer(LayerShift::Move, LayerDir::Left, _) | Button::Layer(
                LayerShift::Move,
                LayerDir::Up,
                _,
            ) => Some(prev_layer(layer, layer_count)),
            Button::Layer(LayerShift::Peek, _, shift) => Some(hold_layer(layer, shift, layer_count)),
            _ => None,
        },
        switch::EventKind::Release { button, .. } => match button {
            Button::Layer(LayerShift::Peek, _, shift) => Some(
                release_hold_layer(layer, shift, layer_count),
            ),
            _ => None,
        },
    }
}

/// Peeking is undone by letting go: pressing a peeking layer button and then releasing it
/// comes back to the layer where it started, whenever the shift did not wrap past the last
/// layer.
pub proof fn law_peek_returns(layer: u16, shift: u16, layer_count: u16)
    requires
        layer < layer_count,
        layer + shift < layer_count,
    ensures
        spec_release_hold_layer(spec_hold_layer(layer, shift, layer_count), shift, layer_count)
            == layer,
{
    vstd::arithmetic::div_mod::lemma_small_mod((layer + shift) as nat, 0x10000);
    vstd::arithmetic::div_mod::lemma_small_mod((layer + shift) as nat, layer_count as nat);
}

} // verus!
