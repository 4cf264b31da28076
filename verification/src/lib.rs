//! Integer core of a CIEDE2000-based video quality metric.
//!
//! The crate holds everything about the metric that is exact: which colour
//! formats are supported, how a frame's planes are cut into rows, how coded
//! samples are read from those rows and shared between luma positions, how a
//! float is taken apart for the fast power function, and how frames are
//! counted. Each of these is stated over mathematical models and proved.

pub mod colorspace;
pub mod error;
pub mod frame;
pub mod kernel;
pub mod pow;
pub mod row;
pub mod sample;
pub mod stream;
pub mod tally;
pub mod vector;
