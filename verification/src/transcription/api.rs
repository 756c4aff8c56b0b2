//! Provider adapters and the context that a transcription call is given.

use vstd::prelude::*;
use crate::config::file::ProvidersConfig;
use crate::config::file::ProvidersConfigView;
use crate::transcription::model::TranscriptionModel;

pub mod deepgram;
pub mod query;

verus! {

/// Everything one transcription call is given by its caller.
#[derive(Debug, Clone, PartialEq, Eq)]
pub struct TranscriptionConfig {
    /// The selected model.
    pub model: TranscriptionModel,
    /// The name by which the service knows the model.
    pub model_name: String,
    /// The address of the service, without a query.
    pub endpoint: String,
    /// The key that authorises the call.
    pub api_key: String,
    /// Words that the service is asked to favour.
    pub keywords: Vec<String>,
    /// The options of every provider.
    pub providers: ProvidersConfig,
}

/// Mathematical model of [`TranscriptionConfig`].
pub struct TranscriptionConfigView {
    pub model: TranscriptionModel,
    pub model_name: Seq<char>,
    pub endpoint: Seq<char>,
    pub api_key: Seq<char>,
    pub keywords: Seq<Seq<char>>,
    pub providers: ProvidersConfigView,
}

/// The texts of a list of strings.
pub open spec fn texts(strings: Seq<String>) -> Seq<Seq<char>> {
    Seq::new(strings.len(), |i: int| strings[i]@)
}

impl View for TranscriptionConfig {
    type V = TranscriptionConfigView;

    open spec fn view(&self) -> TranscriptionConfigView {
        TranscriptionConfigView {
            model: self.model,
            model_name: self.model_name@,
            endpoint: self.endpoint@,
            api_key: self.api_key@,
            keywords: texts(self.keywords@),
            providers: self.providers@,
        }
    }
}

} // verus!
