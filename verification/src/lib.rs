//! Decides where a window goes when its title bar is clicked with the middle
//! mouse button: onto the next monitor, at the same relative place.
//!
//! Positions and sizes are whole pixels. The origin is at the top left of
//! the desktop and `y` grows downward.
//!
//! The library makes no call into the operating system. A program that uses
//! it reads what it needs there (the window under the pointer, its frame,
//! the monitors) and hands it over as plain values; the library says what
//! follows from them, and the program carries that out.

pub mod config;
pub mod decision;
pub mod geometry;
pub mod gesture;
pub mod monitor;
pub mod platform;
pub mod proxy;
pub mod text;
pub mod updater;
