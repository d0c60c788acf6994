//! Core of a guitar tuner: the pitch-detection decision pipeline.
//!
//! Audio capture and the discrete Fourier transform run on floating-point
//! samples outside this crate; every quantity that the decisions here depend
//! on crosses the boundary as a plain integer. Frequencies are carried in
//! milli-hertz, cents deviations in hundredths of a cent, spectral magnitudes
//! as linearly scaled non-negative integers, and instants as milliseconds
//! from an arbitrary origin, so that every rule below is exact and verified.

pub mod analyzer;
pub mod config;
pub mod frequency;
pub mod history;
pub mod icon;
pub mod note;
pub mod sorting;
pub mod text;
pub mod tray;
