//! Input decoding and playback control for a keypad-and-knob jukebox: a 4x4
//! button matrix, a quadrature rotary encoder, a line-oriented playlist with a
//! one-record cache, and the polling controller that ties them together.
pub mod fourbyfour;
pub mod rotary;
pub mod packlistreader;
pub mod controller;
