//! Game-state logic of a small Snake game: facing directions, grid positions,
//! a fixed-period game clock, and the per-frame update systems over an
//! explicit world state.

pub mod clock;
pub mod direction;
pub mod grid;
pub mod score;
pub mod world;

pub use clock::{GameClock, TICK_PERIOD_NANOS};
pub use direction::Direction;
pub use grid::{position, snap_to_cell, Position, NODE_SIZE, PLAY_AREA_CELLS, PLAY_AREA_HALF_EXTENT};
pub use score::{score_text, Scoreboard};
pub use world::{DirectionController, Keys, SnakeHead, World};
