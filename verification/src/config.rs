//! Synthesis of the engine configuration from stored settings.

pub mod bypass;
pub mod dns;
pub mod error;
pub mod outbound;
pub mod sections;
pub mod store;
pub mod stream;
pub mod synth;
