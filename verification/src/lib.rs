//! A terminal snake game, with the simulation verified.
//!
//! The crate holds the rules of the game: the board and its border, the
//! snake with its movement, growth and collisions, the placement of the
//! fruit, and the per-tick transition of a whole game. Drawing and keyboard
//! input are left to the program that drives it.

pub mod direction;
pub mod fruit;
pub mod game;
pub mod grid;
pub mod snake;

pub use direction::{
    Direction, Key, DIRECTION_DOWN, DIRECTION_LEFT, DIRECTION_NONE, DIRECTION_RIGHT, DIRECTION_UP,
};
pub use fruit::{build_fruit, fruit_at};
pub use game::{board_is_playable, Game, Phase};
pub use grid::{build_cage, Point};
pub use snake::{build_snake, Snake};
