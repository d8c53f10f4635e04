//! Compact, immutable value types for a chess engine's move layer: a
//! bit-packed sixteen-bit move with start square, target square and move
//! kind, the closed taxonomy of move kinds, the side-to-move identity with
//! its negation and indexing contract, and the pairing of a move with the
//! piece that makes it.

pub mod color;
pub mod moves;

pub use color::Color;
pub use moves::FullMove;
pub use moves::Move;
pub use moves::MoveType;
pub use moves::Piece;
pub use moves::Square;
