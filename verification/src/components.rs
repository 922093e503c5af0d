use crate::interaction::{Interaction, InteractionKind};
use crate::record::StateRecord;
use vstd::prelude::*;

verus! {

/// Tracks whether an element is being pressed.
#[derive(Debug, Clone, Copy, PartialEq, Eq, Structural)]
pub struct BPressState {
    pub active: bool,
    pub just_entered: bool,
    pub just_exited: bool,
}

impl View for BPressState {
    type V = StateRecord;

    open spec fn view(&self) -> StateRecord {
        StateRecord {
            active: self.active,
            just_entered: self.just_entered,
            just_exited: self.just_exited,
        }
    }
}

impl Default for BPressState {
    fn default() -> (state: Self)
        ensures
            state@ == StateRecord::created(),
    {
        BPressState { active: false, just_entered: false, just_exited: false }
    }
}

impl BPressState {
    /// One tick of the press kind for the element that reported `interaction`:
    /// the element is active for the press kind while it reports `Pressed`.
    pub fn update(&mut self, interaction: Interaction)
        ensures
            final(self)@ == old(self)@.advance(InteractionKind::Press.active_on(interaction)),
            final(self)@.well_formed(),
    {
        if InteractionKind::Press.is_active(interaction) {
            self.when_active();
        } else {
            self.when_inactive();
        }
    }

    /// The tick of an element on which the active condition holds.
    fn when_active(&mut self)
        ensures
            final(self)@ == old(self)@.advance(true),
    {
        if !self.active {
            self.active = true;
            self.just_entered = true;
        } else {
            if self.just_entered {
                self.just_entered = false;
            }
        }
        if self.just_exited {
            self.just_exited = false;
        }
    }

    /// The tick of an element on which the active condition does not hold.
    fn when_inactive(&mut self)
        ensures
            final(self)@ == old(self)@.advance(false),
    {
        if self.active {
            self.active = false;
            self.just_exited = true;
        } else {
            if self.just_exited {
                self.just_exited = false;
            }
        }
        if self.just_entered {
            self.just_entered = false;
        }
    }
}

/// Tracks whether the pointer rests on an element that is not being pressed.
#[derive(Debug, Clone, Copy, PartialEq, Eq, Structural)]
pub struct BHoverState {
    pub active: bool,
    pub just_entered: bool,
    pub just_exited: bool,
}

impl View for BHoverState {
    type V = StateRecord;

    open spec fn view(&self) -> StateRecord {
        StateRecord {
            active: self.active,
            just_entered: self.just_entered,
            just_exited: self.just_exited,
        }
    }
}

impl Default for BHoverState {
    fn default() -> (state: Self)
        ensures
            state@ == StateRecord::created(),
    {
        BHoverState { active: false, just_entered: false, just_exited: false }
    }
}

impl BHoverState {
    /// One tick of the hover kind for the element that reported `interaction`:
    /// the element is active for the hover kind while it reports `Hovered`; a press
    /// ends the hover.
    pub fn update(&mut self, interaction: Interaction)
        ensures
            final(self)@ == old(self)@.advance(InteractionKind::Hover.active_on(interaction)),
            final(self)@.well_formed(),
    {
        if InteractionKind::Hover.is_active(interaction) {
            self.when_active();
        } else {
            self.when_inactive();
        }
    }

    /// The tick of an element on which the active condition holds.
    fn when_active(&mut self)
        ensures
            final(self)@ == old(self)@.advance(true),
    {
        if !self.active {
            self.active = true;
            self.just_entered = true;
        } else {
            if self.just_entered {
                self.just_entered = false;
            }
        }
        if self.just_exited {
            self.just_exited = false;
        }
    }

    /// The tick of an element on which the active condition does not hold.
    fn when_inactive(&mut self)
        ensures
            final(self)@ == old(self)@.advance(false),
    {
        if self.active {
            self.active = false;
            self.just_exited = true;
        } else {
            if self.just_exited {
                self.just_exited = false;
            }
        }
        if self.just_entered {
            self.just_entered = false;
        }
    }
}

/// Tracks whether the pointer is over an element, pressed or not.
#[derive(Debug, Clone, Copy, PartialEq, Eq, Structural)]
pub struct BMouseOverState {
    pub active: bool,
    pub just_entered: bool,
    pub just_exited: bool,
}

impl View for BMouseOverState {
    type V = StateRecord;

    open spec fn view(&self) -> StateRecord {
        StateRecord {
            active: self.active,
            just_entered: self.just_entered,
            just_exited: self.just_exited,
        }
    }
}

impl Default for BMouseOverState {
    fn default() -> (state: Self)
        ensures
            state@ == StateRecord::created(),
    {
        BMouseOverState { active: false, just_entered: false, just_exited: false }
    }
}

impl BMouseOverState {
    /// One tick of the mouse-over kind for the element that reported `interaction`:
    /// the element is active for the mouse-over kind while it reports anything but
    /// `Idle`.
    pub fn update(&mut self, interaction: Interaction)
        ensures
            final(self)@ == old(self)@.advance(InteractionKind::MouseOver.active_on(interaction)),
            final(self)@.well_formed(),
    {
        if InteractionKind::MouseOver.is_active(interaction) {
            self.when_active();
        } else {
            self.when_inactive();
        }
    }

    /// The tick of an element on which the active condition holds.
    fn when_active(&mut self)
        ensures
            final(self)@ == old(self)@.advance(true),
    {
        if !self.active {
            self.active = true;
            self.just_entered = true;
        } else {
            if self.just_entered {
                self.just_entered = false;
            }
        }
        if self.just_exited {
            self.just_exited = false;
        }
    }

    /// The tick of an element on which the active condition does not hold.
    fn when_inactive(&mut self)
        ensures
            final(self)@ == old(self)@.advance(false),
    {
        if self.active {
            self.active = false;
            self.just_exited = true;
        } else {
            if self.just_exited {
                self.just_exited = false;
            }
        }
        if self.just_entered {
            self.just_entered = false;
        }
    }
}

} // verus!
