//! Transcription: the models on offer and the provider adapters.

pub mod api;
pub mod model;
