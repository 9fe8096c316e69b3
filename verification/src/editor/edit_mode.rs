//! The editor's edit mode: a button of a layer is selected, and the next key pressed on the
//! computer's keyboard is assigned to it.

use vstd::prelude::*;

use super::mat::{spec_width, Mat};
use super::ron_utils::RonEdit;
use crate::button::Button;
use crate::layer::Layer;

verus! {

/// A button of a layer in the layer matrix.
#[derive(Debug, Clone, Copy, PartialEq, Eq, Structural)]
pub struct ButtonIdentifier {
    pub layer_x: u16,
    pub layer_y: u16,
    pub index: usize,
}

#[derive(Debug, Clone, Copy, PartialEq, Eq, Structural)]
pub struct EditMode {
    pub selected_button: Option<ButtonIdentifier>,
}

impl Default for EditMode {
    fn default() -> (e: EditMode)
        ensures
            e.selected_button is None,
    {
        EditMode { selected_button: None }
    }
}

// Used to allow for modifications of this value without borrowing the parent object.
#[derive(Debug, Clone, Copy, PartialEq, Eq, Structural)]
pub struct EditModeWrapper {
    pub edit_mode: Option<EditMode>,
}

impl Default for EditModeWrapper {
    fn default() -> (e: EditModeWrapper)
        ensures
            e.edit_mode is None,
    {
        EditModeWrapper { edit_mode: None }
    }
}

/// The buttons after assigning `b` to button `index`, first padding them with empty buttons
/// up to that index.
pub open spec fn spec_assign(buttons: Seq<Button>, index: int, b: Button) -> Seq<Button> {
    let padded = if index >= buttons.len() {
        buttons + Seq::new((index + 1 - buttons.len()) as nat, |i: int| Button::Empty)
    } else {
        buttons
    };
    padded.update(index, b)
}

/// Assigns `b` to button `index` of `buttons`, adding empty buttons first if there are not
/// that many.
pub fn assign_button(buttons: &mut Vec<Button>, index: usize, b: Button)
    requires
        index < usize::MAX,
    ensures
        final(buttons)@ == spec_assign(old(buttons)@, index as int, b),
{
    let ghost pad_len = if index >= old(buttons)@.len() { (index + 1 - old(buttons)@.len()) as nat } else { 0 };
    while index >= buttons.len()
        invariant
            index < usize::MAX,
            old(buttons)@.len() <= buttons@.len() <= if index >= old(buttons)@.len() { index + 1 } else { old(buttons)@.len() as int },
            buttons@ == old(buttons)@ + Seq::new((buttons@.len() - old(buttons)@.len()) as nat, |i: int| Button::Empty),
        decreases index + 1 - buttons@.len(),
    {
        buttons.push(Button::Empty);
        assert(buttons@ =~= old(buttons)@ + Seq::new((buttons@.len() - old(buttons)@.len()) as nat, |i: int| Button::Empty));
    }
    // Index is now guaranteed to exist.
    buttons[index] = b;
    assert(buttons@ =~= spec_assign(old(buttons)@, index as int, b));
}

impl EditModeWrapper {
    /// Turns edit mode on (with nothing selected) or off.
    pub fn toggle_edit_mode(&mut self)
        ensures
            old(self).edit_mode is Some ==> final(self).edit_mode is None,
            old(self).edit_mode is None ==> final(self).edit_mode == Some(EditMode { selected_button: None }),
    {
        self.edit_mode = if self.edit_mode.is_some() {
            None
        } else {
            Some(EditMode::default())
        };
    }

    /// The selected button, if edit mode is on and a button is selected.
    pub open spec fn selection(self) -> Option<ButtonIdentifier> {
        match self.edit_mode {
            Some(e) => e.selected_button,
            None => None,
        }
    }

    /// A key was pressed while a button may be selected. `key` is the button that the key
    /// maps to, if any. If a button is selected and its layer exists, the key's button is
    /// assigned to it (padding the layer with empty buttons as needed) and the selection ends;
    /// returns the position of the layer whose buttons changed, whose RON text is then stale.
    pub fn assign_key(&mut self, layers: &mut Mat<RonEdit<Layer>>, key: Option<Button>) -> (changed: Option<(usize, usize)>)
        requires
            old(layers).wf(),
            old(self).selection() matches Some(s) ==> s.index < usize::MAX,
        ensures
            final(layers).wf(),
            match old(self).selection() {
                None => *final(self) == *old(self) && final(layers)@ == old(layers)@ && changed is None,
                Some(sel) => {
                    let x = sel.layer_x as int;
                    let y = sel.layer_y as int;
                    if !(x < spec_width(old(layers)@) && y < old(layers)@.len()) {
                        *final(self) == *old(self) && final(layers)@ == old(layers)@ && changed is None
                    } else {
                        &&& final(self).edit_mode == Some(EditMode { selected_button: None })
                        &&& match key {
                            None => final(layers)@ == old(layers)@ && changed is None,
                            Some(b) => {
                                &&& changed == Some((x as usize, y as usize))
                                &&& final(layers)@.len() == old(layers)@.len()
                                &&& forall|j: int| 0 <= j < old(layers)@.len() && j != y ==> #[trigger] final(layers)@[j] == old(layers)@[j]
                                &&& final(layers)@[y].len() == old(layers)@[y].len()
                                &&& forall|i: int| 0 <= i < old(layers)@[y].len() && i != x ==> #[trigger] final(layers)@[y][i] == old(layers)@[y][i]
                                &&& final(layers)@[y][x].t.buttons@ == spec_assign(old(layers)@[y][x].t.buttons@, sel.index as int, b)
                                &&& final(layers)@[y][x].ron == old(layers)@[y][x].ron
                                &&& final(layers)@[y][x].error == old(layers)@[y][x].error
                            },
                        }
                    }
                },
            },
    {
        let edit = match self.edit_mode {
            Some(e) => e,
            None => {
                return None;
            },
        };
        let selected_button = match edit.selected_button {
            Some(b) => b,
            None => {
                return None;
            },
        };
        let x = selected_button.layer_x as usize;
        let y = selected_button.layer_y as usize;
        let mut changed = None;
        let ghost old_layers = layers@;
        match layers.get_mut(x, y) {
            None => {
                // the selected layer did not exist
                return None;
            },
            Some(layer) => {
                let ghost before = *layer;
                if let Some(b) = key {
                    assign_button(&mut layer.t.buttons, selected_button.index, b);
                    changed = Some((x, y));
                }
                assert(key is None ==> *layer == before);
            },
        }
        proof {
            if key is None && x < spec_width(old_layers) && y < old_layers.len() {
                assert(old_layers[y as int].update(x as int, old_layers[y as int][x as int]) =~= old_layers[y as int]);
                assert(layers@ =~= old_layers);
            }
        }
        self.edit_mode = Some(EditMode { selected_button: None });
        changed
    }
}

} // verus!
