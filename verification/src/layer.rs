//! Layers: the buttons that the switches act as.

use vstd::prelude::*;

use crate::button::Button;

verus! {

/// The buttons of one layer, indexed by switch.
#[derive(Debug)]
pub struct Layer {
    pub buttons: Vec<Button>,
}

impl Default for Layer {
    fn default() -> (l: Layer)
        ensures
            l.buttons@ == Seq::<Button>::empty(),
    {
        Layer { buttons: Vec::new() }
    }
}

impl Clone for Layer {
    fn clone(&self) -> (l: Layer)
        ensures
            l.buttons@ == self.buttons@,
    {
        let mut buttons: Vec<Button> = Vec::new();
        let mut i: usize = 0;
        while i < self.buttons.len()
            invariant
                i <= self.buttons@.len(),
                buttons@ == self.buttons@.take(i as int),
            decreases self.buttons@.len() - i,
        {
            buttons.push(self.buttons[i]);
            i = i + 1;
            assert(buttons@ =~= self.buttons@.take(i as int));
        }
        assert(self.buttons@.take(self.buttons@.len() as int) =~= self.buttons@);
        Layer { buttons }
    }
}

/// A matrix of layers.
pub type Layers = Vec<Vec<Layer>>;

} // verus!
