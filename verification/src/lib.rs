//! A 3x3x3 twisty-cube model: sticker state, face turns, move notation,
//! undo/redo history and the integer layout data that views draw from.

pub mod cube;
pub mod history;
pub mod cubie;
pub mod net;
pub mod playback;
