//! Rescales tabletop-game creature statistics from one level to another.
//!
//! The scaling engine looks a statistic up in a level-by-proficiency
//! reference table and produces the equivalent value at a target level,
//! classifying the lookup as exact, interpolated or extrapolated. The
//! damage modules parse textual dice expressions into expected values,
//! redistribute a rescaled damage total over the original components,
//! and search for the dice expression that best approximates a target
//! expected value.

pub use crate::scaling::scale_statistic;

pub mod color;
pub mod damage;
pub mod fixed;
pub mod levels;
pub mod logging;
pub mod prompt;
pub mod scaling;
pub mod statistic;
pub mod tables;
pub mod text;
