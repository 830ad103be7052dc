//! Game rules of a small wind-and-leaf game: a leaf is blown through the
//! world by gusts of wind and brews tea when it lands in the mug.
//!
//! Everything here works on plain values. The engine that draws the world,
//! reads the keyboard and runs the physics lives outside this crate and
//! hands its observations in as booleans and integers.

pub mod camera;
pub mod leaf;
pub mod mug;
pub mod state;

pub use camera::{god_mode_movement, Axis, CameraStep};
pub use leaf::{leaf_blow_updater, wind_blow, PlayerLeaf, STARTING_GUSTS};
pub use mug::{tea_in_mug_system, Mug, FULL_BREW};
pub use state::{god_mode_toggle, space_start_game, GameState, Transition};
