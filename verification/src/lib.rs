//! Verified core of a grid-based snake game: a tick-driven state machine
//! owning the snake's body, facing direction, food placement, collision
//! detection, growth, and game-over/reset behaviour. Rendering and input
//! devices are a host concern; the host hands in elapsed time and direction
//! presses, and reads positions back out.

pub mod body;
pub mod direction;
pub mod food;
pub mod grid;
pub mod intent;
pub mod sim;
