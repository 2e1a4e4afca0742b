//! Voice-triggered automation core: segmentation of a decoded token stream into
//! phrases, text preprocessing, command routing, dispatch planning and action
//! resolution.
use vstd::prelude::*;

pub mod action;
pub mod casl_action;
pub mod command;
pub mod command_api;
pub mod config;
pub mod driver;
pub mod pattern;
pub mod preprocessor;
pub mod speech;
pub mod text;

verus! {

/// Sample rate, in samples per second, of the audio the pipeline works on.
pub const TARGET_SAMPLE_RATE: u32 = 16_000;

} // verus!
