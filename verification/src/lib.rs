pub mod bundles;
pub mod components;
pub mod events;
pub mod interaction;
pub mod prelude;
pub mod record;
pub mod systems;
