use vstd::prelude::*;

verus! {

/// The raw signal that the host reports for one element in one tick.
#[derive(Debug, Clone, Copy, PartialEq, Eq, Structural)]
pub enum Interaction {
    Pressed,
    Hovered,
    Idle,
}

impl Default for Interaction {
    fn default() -> (interaction: Self)
        ensures
            interaction == Interaction::Idle,
    {
        Interaction::Idle
    }
}

/// The three interaction kinds. A kind is nothing but its active condition: the
/// raw signals on which an element counts as active for it.
#[derive(Debug, Clone, Copy, PartialEq, Eq, Structural)]
pub enum InteractionKind {
    Press,
    Hover,
    MouseOver,
}

impl InteractionKind {
    /// The kind's active condition: press is active on `Pressed` alone, hover on
    /// `Hovered` alone, and mouse-over on both, that is, whenever the pointer is over
    /// the element.
    pub open spec fn active_on(self, interaction: Interaction) -> bool {
        match self {
            InteractionKind::Press => interaction == Interaction::Pressed,
            InteractionKind::Hover => interaction == Interaction::Hovered,
            InteractionKind::MouseOver => interaction != Interaction::Idle,
        }
    }

    /// Evaluates the kind's active condition on a raw signal.
    pub fn is_active(self, interaction: Interaction) -> (active: bool)
        ensures
            active == self.active_on(interaction),
    {
        match self {
            InteractionKind::Press => interaction == Interaction::Pressed,
            InteractionKind::Hover => interaction == Interaction::Hovered,
            InteractionKind::MouseOver => interaction != Interaction::Idle,
        }
    }
}

} // verus!
