//! The transcription models that a request can select.

use vstd::prelude::*;

verus! {

/// The model that a transcription request selects.
#[derive(Debug, Clone, Copy, PartialEq, Eq, Structural)]
pub enum TranscriptionModel {
    /// Deepgram's Nova-3, which takes key terms.
    DeepgramNova3,
    /// Deepgram's Nova-2, which takes keywords.
    DeepgramNova2,
    /// Any other model.
    Other,
}

} // verus!
