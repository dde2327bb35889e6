//! The rules of a falling-block puzzle game: the pieces, the field, collision,
//! locking, line clearing, game over and the per-frame update.
pub mod shapes;
pub mod keys;
pub mod board;
pub mod game;
mod random;
pub mod laws;
