//! Control core of a polyphonic plucked-string synthesizer.
//!
//! The instrument is a pool of eight delay-line voices, a bank of body
//! resonators and a convolution reverb.  This crate takes its decisions and
//! keeps the state they rest on:
//!
//! - `noise`: the generator that feeds plucks, attacks and the reverb tail;
//! - `tone`: the five tone parameters, their ranges and the guitar presets;
//! - `note`: what a frequency and a velocity make of a note: the length of
//!   the delay line, the pluck, the sustain and the filter coefficients;
//! - `voice`: the state of one voice, how a pluck sets it and how a frame
//!   moves it on;
//! - `pool`: which voice a new note takes;
//! - `body`: the table of resonant modes;
//! - `reverb`: length and early reflections of the impulse response, and the
//!   circular history that the convolution reads;
//! - `engine`: all of it together, one note and one frame at a time;
//! - `fixed`: the fixed-point numbers in which the others count.
//!
//! The crate works on whole numbers throughout.  Sample rates are whole
//! hertz, frequencies whole millihertz, and every other quantity that is
//! not a count or a position is a fixed-point number in billionths.  The
//! arithmetic on the samples themselves is left to the host of the crate:
//! the engine tells it which samples to read, which coefficients to apply
//! and which noise to add, and is told the level it arrived at.

pub mod body;
pub mod engine;
pub mod fixed;
pub mod noise;
pub mod note;
pub mod pool;
pub mod reverb;
pub mod tone;
pub mod voice;
