//! An initiative tracker for tabletop combat encounters.
//!
//! The library holds the logic of the tracker: a single-line text editor, the
//! registry of combatants ordered by initiative, the forms that add combatants
//! and roll initiative, and the state machine that routes key presses between
//! them. Drawing to a terminal and reading key presses happen elsewhere; this
//! crate takes plain key events and hands back plain descriptions of what to
//! draw.

pub mod actions;
pub mod add;
pub mod combatant;
pub mod form;
pub mod input;
pub mod key;
pub mod number;
pub mod roll;
pub mod state;
pub mod tracker;
