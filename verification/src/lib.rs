//! A cellular-automaton sandbox: a fixed-size boolean grid evolved under
//! Conway's Game of Life rules, an interaction state machine that maps
//! discrete input events to cursor movement, cell edits and a four-item
//! menu, and a tick scheduler that throttles generation updates.

pub mod grid;
pub mod life;
pub mod machine;
pub mod scheduler;

pub use grid::Grid;
pub use grid::GridView;
pub use life::step;
pub use machine::{InputEvent, MenuTab, Mode, Session, GRID_HEIGHT, GRID_WIDTH};
