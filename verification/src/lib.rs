//! Frame-update and collision/spawn engine of a 2-D arcade shooter.
//!
//! A player-controlled ship fires bullets upward at descending enemies. The
//! library holds the full simulation core: entity movement, distance-based
//! collision resolution, timed enemy spawning, and the `Playing` to `GameOver`
//! state machine. Rendering, input capture and frame scheduling are left to
//! the surrounding application, which drives [`game::Game`] with timestamps,
//! key events, and the random spawn coordinate for each frame.

pub mod bullet;
pub mod collision;
pub mod enemy;
pub mod enemy_type;
pub mod game;
pub mod game_state;
pub mod player;
pub mod position;
