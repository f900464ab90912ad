//! Real-time voice pipeline core: sample queues, playback and capture
//! decisions, device negotiation, resampling plans and the stage
//! orchestration rules, each with a machine-checked contract.
//!
//! Samples travel through this crate as the bit patterns of 32-bit IEEE-754
//! numbers, so that no arithmetic on them is needed here.

pub mod capture;
pub mod config;
pub mod device;
pub mod orchestrator;
pub mod playback;
pub mod resampler;
pub mod ring;
pub mod sentences;
pub mod transcript;
pub mod vad;
pub mod voices;
