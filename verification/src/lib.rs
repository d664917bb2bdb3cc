//! Game rules of the Papitas farming game: the shared player state, the
//! shop, the plants, the enemies and the menus, written as plain state
//! machines that the engine glue drives frame by frame.

pub mod text;
pub mod clock;
pub mod random;
pub mod joystick;
pub mod global_state;
pub mod areas;
pub mod coin;
pub mod dirt;
pub mod papita;
pub mod player;
pub mod slime;
pub mod merchant;
pub mod title;
pub mod game;
pub mod hud;
pub mod persistence;
pub mod menus;
