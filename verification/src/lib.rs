//! Speech-to-text support library: the user's configuration document and the
//! request and reply rules of the Deepgram transcription service.

pub mod config;
pub mod text;
pub mod transcription;
