//! A keyboard-driven editor core for axis-aligned rectangles on a
//! character-cell canvas.
//!
//! The crate holds the editor's decisions and nothing of the terminal: the
//! geometry of a rectangle, the topmost-wins hit test, the state machine that
//! consumes one command at a time, the projection of a state into draw
//! primitives, and the rules by which a saved rectangle list is accepted.
//!
//! Coordinates are whole canvas units held in `i64`: the editor only ever
//! steps by whole units, so whole numbers hold every state it can reach.
//! They are kept within `-COORD_MAX ..= COORD_MAX`; a step that would leave
//! that space is not taken.

pub mod geometry;
pub mod hit;
pub mod editor;
pub mod render;
pub mod persist;
pub mod input;
pub mod laws;
