use vstd::prelude::*;

verus! {

/// Maximum number of physics steps per shot (safety limit).
pub const MAX_PHYSICS_STEPS: usize = 10_000;

/// Target frames per second for TUI rendering.
pub const TARGET_FPS: u32 = 30;

/// Frame duration in milliseconds.
pub const FRAME_DURATION_MS: u64 = 1000 / TARGET_FPS as u64;

/// Projectile trail length (number of past positions to render).
pub const TRAIL_LENGTH: usize = 15;

/// Number of physics steps to show in the aiming trajectory preview.
pub const TRAJECTORY_PREVIEW_STEPS: usize = 80;

/// How long the result of a shot stays on screen before the turn ends, in milliseconds.
pub const RESOLVE_PAUSE_MS: u64 = 1500;

/// How long the pause before the next player's turn lasts, in milliseconds.
pub const TURN_PAUSE_MS: u64 = 500;

/// How many trajectory positions the animation advances per frame.
pub const PLAYBACK_SPEED: usize = 3;

} // verus!
