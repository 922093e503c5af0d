use crate::components::{BHoverState, BMouseOverState, BPressState};
use crate::interaction::Interaction;
use crate::record::StateRecord;
use vstd::prelude::*;

verus! {

/// What a button carries for the three passes: the slot in which the host reports
/// its raw signal, and one state per interaction kind.
#[derive(Debug, Clone, Copy, PartialEq, Eq, Structural)]
pub struct BButtonBundle {
    pub interaction: Interaction,
    pub press_state: BPressState,
    pub hover_state: BHoverState,
    pub mouse_over_state: BMouseOverState,
}

impl BButtonBundle {
    /// A button that reports `interaction` and has seen no tick yet.
    pub fn new(interaction: Interaction) -> (bundle: Self)
        ensures
            bundle.interaction == interaction,
            bundle.press_state@ == StateRecord::created(),
            bundle.hover_state@ == StateRecord::created(),
            bundle.mouse_over_state@ == StateRecord::created(),
    {
        BButtonBundle {
            interaction,
            press_state: BPressState::default(),
            hover_state: BHoverState::default(),
            mouse_over_state: BMouseOverState::default(),
        }
    }
}

impl Default for BButtonBundle {
    fn default() -> (bundle: Self)
        ensures
            bundle.interaction == Interaction::Idle,
            bundle.press_state@ == StateRecord::created(),
            bundle.hover_state@ == StateRecord::created(),
            bundle.mouse_over_state@ == StateRecord::created(),
    {
        BButtonBundle {
            interaction: Interaction::default(),
            press_state: BPressState::default(),
            hover_state: BHoverState::default(),
            mouse_over_state: BMouseOverState::default(),
        }
    }
}

} // verus!
