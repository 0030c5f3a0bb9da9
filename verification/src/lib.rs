//! A decision engine for the two-player pot-picking game.
//!
//! A row of pots lies between two players. They move in turn, and a move
//! takes the pot at either end of the row. Each player wants the larger
//! total. The engine solves the game by dynamic programming over every
//! contiguous sub-row and answers which end an automated player takes at a
//! given difficulty.

pub mod dealer;
pub mod engine;
pub mod error;
pub mod level;
pub mod random;
pub mod strategy;
pub mod table;
pub mod theorems;
pub mod value;

pub use dealer::start_game;
pub use engine::{best_ends, checked_move, optimal_move, row_total, select_move};
pub use error::InputError;
pub use level::Level;
pub use table::{prefix_sums, value_table};
