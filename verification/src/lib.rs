//! Verified locomotion core for a third-person character: a mode state
//! machine (walking, jumping, ladder climbing), directional movement with a
//! speed clamp, ladder detection and alignment from a forward probe, climb
//! bounds enforcement, and a two-frame walk animation selector.
//!
//! All geometry is carried in fixed-point integers (thousandths of a world
//! unit), so every rule here is checked by the verifier. Rendering, asset
//! loading, raw input mapping and the rigid-body integration itself are
//! external collaborators: they hand this library plain values (held actions,
//! probe hits, elapsed time) and receive plain values back (intents, signals,
//! a frame index).

pub mod animation;
pub mod character;
pub mod input;
pub mod interaction;
pub mod ladder;
pub mod math;
pub mod movement;
pub mod state;
pub mod terrain;
pub mod units;
