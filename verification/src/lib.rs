//! Core logic of a minimal grid snake game: grid coordinates, the head's
//! direction, the follow-the-leader movement chain, directional input
//! resolution, food placement, and the fixed-interval timers that gate the
//! movement and food systems.

pub mod game;
pub mod grid;
pub mod input;
mod rng;
pub mod state;
pub mod timer;

pub use game::Game;
pub use grid::Direction;
pub use grid::Position;
pub use input::DirectionalKeys;
pub use state::GameState;
pub use state::GameStateView;
pub use timer::IntervalTimer;
