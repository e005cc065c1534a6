//! A crowd of labelled dancers wandering inside a fixed window.
//!
//! All quantities are exact integers. Positions are counted in millionths of
//! a pixel, elapsed time in billionths of a unit of time, timers in
//! billionths of a timer unit (sixty of which pass per unit of time), angles
//! in millionths of a degree and the two components of a heading in
//! millionths of its length. The caller measures time, evaluates sines and
//! cosines, loads images, renders text and paints; every decision about
//! motion, animation, placement, labels and input lives here.

pub mod chance;
pub mod dancers;
pub mod events;
pub mod geometry;
pub mod numerals;
pub mod renderer;
pub mod roster;
