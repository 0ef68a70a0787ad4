//! Core of a terminal falling-block puzzle game: a bit-packed playfield,
//! a catalog of piece shapes, collision checking, movement and rotation
//! rules, and the gravity-tick / lock / line-clear pipeline.

pub mod engine;
pub mod render;
pub mod session;
pub mod shape;

pub use engine::GameState;
pub use engine::TetrisEngine;
pub use render::Renderer;
pub use session::App;
pub use session::Key;

pub use shape::get_piece_height;
pub use shape::get_piece_width;
pub use shape::get_positioned_piece_row;
pub use shape::get_tetromino_representation;
pub use shape::Orientation;
pub use shape::Tetromino;
