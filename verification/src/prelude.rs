pub use crate::{
    bundles::BButtonBundle,
    components::{BHoverState, BMouseOverState, BPressState},
    events::{BHoverEvent, BMouseOverEvent, BPressEvent},
    interaction::Interaction,
};
