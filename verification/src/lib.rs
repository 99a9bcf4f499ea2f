//! Verified core of Lobber, an artillery game: ammunition and turn rules, the
//! pixel buffer the battlefield is painted into, the playback of a projectile's
//! flight, the order of midpoint displacement in terrain generation, and the
//! decisions of the game loop.

pub mod types;
pub mod constants;
pub mod animation;
pub mod pixel_buffer;
pub mod state;
pub mod control;
pub mod terrain;
