//! A deterministic engine for one or two synchronized falling-block puzzle
//! boards: a rate regulator that turns fractional per-tick speeds into exact
//! integer step counts, piece geometry and collision rules, a single-board
//! state machine, and a pairing layer that couples two boards through a
//! cross-board attack.

pub mod frequency_regulator;
mod rng;
pub mod shape;
pub mod state;
pub mod tetris;
pub mod tetris_pair;

pub use frequency_regulator::FrequencyRegulator;
pub use shape::CellType;
pub use state::Field;
pub use shape::Rotation;
pub use shape::TetrominoType;
pub use tetris::Action;
pub use tetris::StepResult;
pub use tetris::Tetris;
pub use tetris_pair::PlayerSide;
pub use tetris_pair::TetrisPair;
