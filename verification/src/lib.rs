//! A small signal-processing library: a uniformly random signal source, a
//! single-pole exponential low-pass filter, and the layout values for a
//! two-panel chart of the raw and filtered signals.
//!
//! Samples are held in fixed point: an `i64` number of billionths, so that
//! `fixed::SCALE` stands for 1.0 and `-fixed::SCALE` for -1.0. Every
//! function of the pipeline carries a contract over that model.

pub mod chart;
pub mod filter;
pub mod fixed;
pub mod pipeline;
pub mod sample;
