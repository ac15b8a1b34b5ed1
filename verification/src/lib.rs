//! Verified core of a 2D tile side-scroller: viewport-culled tile streaming,
//! axis-separated collision resolution against solid tiles, a camera window
//! derived from the player position, and the input/animation state machines.
//!
//! All world geometry is measured in integer world units (one tile is
//! [`geom::TILE_SIDE`] units on a side) and time is measured in ticks of
//! 1/[`geom::TICKS_PER_SECOND`] second, so every quantity the logic touches
//! is exact. The rendering, asset loading and device input that surround this
//! core live outside the library and exchange plain values with it.

pub mod camera;
pub mod collision;
pub mod culler;
pub mod geom;
pub mod input;
pub mod layer;
pub mod player;
