//! A verified core for a dialogue textbox: fragments of authored text become
//! short-lived section entities under a textbox, each section runs a two-stage
//! completion protocol (reveal finished, then cleared by the player), and a
//! shared continue indicator tracks, through ordered visibility requests,
//! whether a section waits to be cleared.

pub mod events;
pub mod indicator;
pub mod laws;
pub mod lifecycle;
pub mod world;

pub use events::Continue;
pub use events::SectionFrag;
pub use events::TextBoxEntity;
pub use events::UpdateContinueVis;
pub use events::Visibility;
