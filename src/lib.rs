//! Conway's Game of Life on a fixed grid, with a pannable and zoomable view
//! onto it and the decisions of the loops that drive both.

pub mod game;
pub mod schedule;
pub mod view;

pub use game::Game;
pub use schedule::{frame_delay, next_tick, TickAction};
pub use view::{Action, Input, ViewError, Viewport};
