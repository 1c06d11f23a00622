//! A digital bubble level: tilt readings from a 3-axis accelerometer are
//! mapped onto a 5x5 LED grid, with two buttons selecting the display
//! sensitivity and a latch capturing button edges between frames.

pub mod buttons;
pub mod level;
