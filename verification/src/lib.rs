//! Core of a tempo-synchronized rhythm generator.
//!
//! A master clock advances a tick counter at a fixed sub-beat resolution.
//! Up to four output lanes each turn that counter into an on/off level plus
//! edge flags, either as a probability-gated pulse of configurable width
//! ("gate" mode) or as a Euclidean onset pattern ("euclid" mode).

pub mod config;
pub mod error;
pub mod euclid;
pub mod frac;
pub mod output;
pub mod pattern;
pub mod prob;
pub mod pwm;
pub mod rate;
pub mod rng;
pub mod sequencer;
pub mod tick;

pub use config::{Config, OutputType};
pub use error::Error;
pub use euclid::euclid;
pub use frac::Frac;
pub use output::{Output, OutputState, OutputStates};
pub use pattern::{Density, Length, Sequence, MAX_STEPS};
pub use prob::Prob;
pub use pwm::Pwm;
pub use rate::Rate;
pub use rng::Rng;
pub use sequencer::Sequencer;
pub use tick::{resolution, Tick, RESOLUTION};
