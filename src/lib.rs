//! An interrupt-driven countdown timer for a 5×5 LED matrix board with two
//! buttons and a speaker, as a verified state machine, together with the
//! images it draws and the small computations of the board's other demos.

pub mod countdown;
pub mod dice;
pub mod glyph;
pub mod laws;
pub mod sound;
pub mod tilt;
