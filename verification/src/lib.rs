//! Core of a tile-based walking demo: a single player sprite moves across a
//! fixed 20x20 grid, steered by directional input, animated by a two-frame
//! walk cycle, and drawn through a sprite atlas.
//!
//! The crate holds the logical state machine only: grid positions and their
//! clamped stepping, the movement/phase flags, input resolution, sprite-index
//! selection, and the exact grid-to-screen coordinate mapping. Windowing,
//! asset loading and rendering live with the host engine, outside this crate.

pub mod grid;
pub mod motion;
pub mod render;
