//! What the formulas of the engine are for: what they give where a control is off, full or left
//! alone, in which direction a control moves them, and what they leave alone.
//!
//! The laws speak of the same functions as the contracts. Where one needs arithmetic, it names what
//! it needs of it; see [`crate::rounding`].
pub mod engines;
pub mod events;
pub mod formula;
pub mod jet;
pub mod layers;
pub mod node;
pub mod pitch;
pub mod places;
pub mod signals;
pub mod sounds;
pub mod tone;
pub mod voice;
pub mod weather;
