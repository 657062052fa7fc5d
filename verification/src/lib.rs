//! Interactive session core for a two-player shogi game.
//!
//! The library models the board projection, the selection state machine,
//! the engine-bridge decisions and the analog-device input mapping, and
//! proves their contracts.  Move legality itself is owned by an external
//! rules authority (the `shogi` crate), reached through a small trusted
//! boundary in [`authority`].

pub mod piece;
pub mod text;
pub mod moves;
pub mod authority;
pub mod board;
pub mod joystick;
pub mod engine;
pub mod session;

pub use piece::{Color, Piece, PieceType, Square};
pub use moves::{Move, MoveRejection, SfenRejection};
pub use board::{Board, Selection};
pub use joystick::Joystick;
pub use engine::{DurationError, EngineRequest};
pub use session::ShogiGame;
