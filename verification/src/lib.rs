//! Game logic of a grid snake game: board geometry, snake movement,
//! food placement, scoring, an autopilot that tours the whole board,
//! input handling and the screen-flow decisions of the game.

pub mod grid;
pub mod snake;
pub mod ai;
pub mod random;
pub mod food;
pub mod game;
pub mod input;
pub mod state;
pub mod high_score;
pub mod audio;
pub mod flow;
