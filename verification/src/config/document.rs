//! The stored form of the configuration, in which every key may be
//! missing, and the rules that turn it into a complete configuration.

use vstd::prelude::*;
use vstd::string::StringExecFns;
use crate::config::error::ConfigError;
use crate::config::error::ConfigErrorView;
use crate::config::file::AudioConfig;
use crate::config::file::AudioConfigView;
use crate::config::file::DeepgramConfig;
use crate::config::file::DeepgramConfigView;
use crate::config::file::OpenAiConfig;
use crate::config::file::OsttConfig;
use crate::config::file::OsttConfigView;
use crate::config::file::ParakeetConfig;
use crate::config::file::ProvidersConfig;
use crate::config::file::ProvidersConfigView;
use crate::config::file::default_output_format;
use crate::config::file::default_peak_volume_threshold;
use crate::config::file::default_reference_level_db;
use crate::config::file::default_utt_split;
use crate::config::file::spec_default_output_format;
use crate::config::file::spec_default_utt_split;
use crate::text::text_of;

verus! {

/// The `[audio]` table as stored.
#[derive(Debug, Clone, PartialEq, Eq)]
pub struct AudioDocument {
    pub device: Option<String>,
    pub sample_rate: Option<u32>,
    pub peak_volume_threshold: Option<u8>,
    pub reference_level_db: Option<i8>,
    pub output_format: Option<String>,
}

/// Mathematical model of [`AudioDocument`].
pub struct AudioDocumentView {
    pub device: Option<Seq<char>>,
    pub sample_rate: Option<u32>,
    pub peak_volume_threshold: Option<u8>,
    pub reference_level_db: Option<i8>,
    pub output_format: Option<Seq<char>>,
}

impl View for AudioDocument {
    type V = AudioDocumentView;

    open spec fn view(&self) -> AudioDocumentView {
        AudioDocumentView {
            device: text_of(self.device),
            sample_rate: self.sample_rate,
            peak_volume_threshold: self.peak_volume_threshold,
            reference_level_db: self.reference_level_db,
            output_format: text_of(self.output_format),
        }
    }
}

/// The `[providers.deepgram]` table as stored.
#[derive(Debug, Clone, PartialEq, Eq)]
pub struct DeepgramDocument {
    pub filler_words: Option<bool>,
    pub measurements: Option<bool>,
    pub numerals: Option<bool>,
    pub paragraphs: Option<bool>,
    pub profanity_filter: Option<bool>,
    pub punctuate: Option<bool>,
    pub smart_format: Option<bool>,
    pub utterances: Option<bool>,
    pub utt_split: Option<String>,
    pub mip_opt_out: Option<bool>,
    pub detect_language: Option<bool>,
}

/// Mathematical model of [`DeepgramDocument`].
pub struct DeepgramDocumentView {
    pub filler_words: Option<bool>,
    pub measurements: Option<bool>,
    pub numerals: Option<bool>,
    pub paragraphs: Option<bool>,
    pub profanity_filter: Option<bool>,
    pub punctuate: Option<bool>,
    pub smart_format: Option<bool>,
    pub utterances: Option<bool>,
    pub utt_split: Option<Seq<char>>,
    pub mip_opt_out: Option<bool>,
    pub detect_language: Option<bool>,
}

impl View for DeepgramDocument {
    type V = DeepgramDocumentView;

    open spec fn view(&self) -> DeepgramDocumentView {
        DeepgramDocumentView {
            filler_words: self.filler_words,
            measurements: self.measurements,
            numerals: self.numerals,
            paragraphs: self.paragraphs,
            profanity_filter: self.profanity_filter,
            punctuate: self.punctuate,
            smart_format: self.smart_format,
            utterances: self.utterances,
            utt_split: text_of(self.utt_split),
            mip_opt_out: self.mip_opt_out,
            detect_language: self.detect_language,
        }
    }
}

/// The `[providers.parakeet]` table as stored.
#[derive(Debug, Clone, PartialEq, Eq)]
pub struct ParakeetDocument {
    pub use_gpu: Option<bool>,
}

/// The `[providers]` table as stored.
#[derive(Debug, Clone, PartialEq, Eq)]
pub struct ProvidersDocument {
    pub deepgram: Option<DeepgramDocument>,
    pub openai: Option<OpenAiConfig>,
    pub parakeet: Option<ParakeetDocument>,
}

/// Mathematical model of [`ProvidersDocument`].
pub struct ProvidersDocumentView {
    pub deepgram: Option<DeepgramDocumentView>,
    pub openai: Option<OpenAiConfig>,
    pub parakeet: Option<ParakeetDocument>,
}

impl View for ProvidersDocument {
    type V = ProvidersDocumentView;

    open spec fn view(&self) -> ProvidersDocumentView {
        ProvidersDocumentView {
            deepgram: match self.deepgram {
                Some(deepgram) => Some(deepgram@),
                None => None,
            },
            openai: self.openai,
            parakeet: self.parakeet,
        }
    }
}

/// The whole document as stored.
#[derive(Debug, Clone, PartialEq, Eq)]
pub struct ConfigDocument {
    pub audio: Option<AudioDocument>,
    pub providers: Option<ProvidersDocument>,
}

/// Mathematical model of [`ConfigDocument`].
pub struct ConfigDocumentView {
    pub audio: Option<AudioDocumentView>,
    pub providers: Option<ProvidersDocumentView>,
}

impl View for ConfigDocument {
    type V = ConfigDocumentView;

    open spec fn view(&self) -> ConfigDocumentView {
        ConfigDocumentView {
            audio: match self.audio {
                Some(audio) => Some(audio@),
                None => None,
            },
            providers: match self.providers {
                Some(providers) => Some(providers@),
                None => None,
            },
        }
    }
}

/// A flag as stored, off where it is missing.
pub open spec fn flag_or_off(flag: Option<bool>) -> bool {
    match flag {
        Some(on) => on,
        None => false,
    }
}

/// The Deepgram options that a stored table stands for: each missing key
/// has its default.
pub open spec fn spec_deepgram_from_document(doc: DeepgramDocumentView) -> DeepgramConfigView {
    DeepgramConfigView {
        filler_words: flag_or_off(doc.filler_words),
        measurements: flag_or_off(doc.measurements),
        numerals: flag_or_off(doc.numerals),
        paragraphs: flag_or_off(doc.paragraphs),
        profanity_filter: flag_or_off(doc.profanity_filter),
        punctuate: flag_or_off(doc.punctuate),
        smart_format: flag_or_off(doc.smart_format),
        utterances: flag_or_off(doc.utterances),
        utt_split: match doc.utt_split {
            Some(seconds) => seconds,
            None => spec_default_utt_split(),
        },
        mip_opt_out: flag_or_off(doc.mip_opt_out),
        detect_language: flag_or_off(doc.detect_language),
    }
}

/// The options of every provider that a stored table stands for: each
/// missing table, and the whole table where it is missing, has its
/// defaults.
pub open spec fn spec_providers_from_document(
    doc: Option<ProvidersDocumentView>,
) -> ProvidersConfigView {
    match doc {
        None => ProvidersConfigView::defaults(),
        Some(doc) => ProvidersConfigView {
            deepgram: match doc.deepgram {
                Some(deepgram) => spec_deepgram_from_document(deepgram),
                None => DeepgramConfigView::defaults(),
            },
            openai: OpenAiConfig {},
            parakeet: match doc.parakeet {
                Some(parakeet) => ParakeetConfig { use_gpu: flag_or_off(parakeet.use_gpu) },
                None => ParakeetConfig { use_gpu: false },
            },
        },
    }
}

/// The error of a document that lacks a required key.
pub open spec fn missing_field(name: Seq<char>) -> ConfigErrorView {
    ConfigErrorView::Parse("missing field `"@ + name + "`"@)
}

/// The audio settings that a stored table stands for. The device and the
/// sample rate are required; every other missing key has its default.
pub open spec fn spec_audio_from_document(doc: AudioDocumentView) -> Result<
    AudioConfigView,
    ConfigErrorView,
> {
    match (doc.device, doc.sample_rate) {
        (None, _) => Err(missing_field("device"@)),
        (Some(_), None) => Err(missing_field("sample_rate"@)),
        (Some(device), Some(sample_rate)) => Ok(
            AudioConfigView {
                device,
                sample_rate,
                peak_volume_threshold: match doc.peak_volume_threshold {
                    Some(threshold) => threshold,
                    None => 90,
                },
                reference_level_db: match doc.reference_level_db {
                    Some(level) => level,
                    None => -20i8,
                },
                output_format: match doc.output_format {
                    Some(format) => format,
                    None => spec_default_output_format(),
                },
            },
        ),
    }
}

/// The configuration that a stored document stands for. The audio table is
/// required, with its device and sample rate; everything else that is
/// missing has its default.
pub open spec fn spec_from_document(doc: ConfigDocumentView) -> Result<
    OsttConfigView,
    ConfigErrorView,
> {
    match doc.audio {
        None => Err(missing_field("audio"@)),
        Some(audio) => match spec_audio_from_document(audio) {
            Err(error) => Err(error),
            Ok(audio) => Ok(
                OsttConfigView { audio, providers: spec_providers_from_document(doc.providers) },
            ),
        },
    }
}

/// The table that stores audio settings: every key is present.
pub open spec fn spec_audio_to_document(audio: AudioConfigView) -> AudioDocumentView {
    AudioDocumentView {
        device: Some(audio.device),
        sample_rate: Some(audio.sample_rate),
        peak_volume_threshold: Some(audio.peak_volume_threshold),
        reference_level_db: Some(audio.reference_level_db),
        output_format: Some(audio.output_format),
    }
}

/// The table that stores Deepgram options: every key is present.
pub open spec fn spec_deepgram_to_document(deepgram: DeepgramConfigView) -> DeepgramDocumentView {
    DeepgramDocumentView {
        filler_words: Some(deepgram.filler_words),
        measurements: Some(deepgram.measurements),
        numerals: Some(deepgram.numerals),
        paragraphs: Some(deepgram.paragraphs),
        profanity_filter: Some(deepgram.profanity_filter),
        punctuate: Some(deepgram.punctuate),
        smart_format: Some(deepgram.smart_format),
        utterances: Some(deepgram.utterances),
        utt_split: Some(deepgram.utt_split),
        mip_opt_out: Some(deepgram.mip_opt_out),
        detect_language: Some(deepgram.detect_language),
    }
}

/// The document that stores a configuration: every table and every key is
/// present.
pub open spec fn spec_to_document(config: OsttConfigView) -> ConfigDocumentView {
    ConfigDocumentView {
        audio: Some(spec_audio_to_document(config.audio)),
        providers: Some(
            ProvidersDocumentView {
                deepgram: Some(spec_deepgram_to_document(config.providers.deepgram)),
                openai: Some(OpenAiConfig {}),
                parakeet: Some(ParakeetDocument { use_gpu: Some(config.providers.parakeet.use_gpu) }),
            },
        ),
    }
}

fn stored_flag(flag: Option<bool>) -> (on: bool)
    ensures
        on == flag_or_off(flag),
{
    match flag {
        Some(on) => on,
        None => false,
    }
}

fn missing_field_error(name: &str) -> (error: ConfigError)
    ensures
        error@ == missing_field(name@),
{
    let mut message = String::from_str("missing field `");
    message.append(name);
    message.append("`");
    ConfigError::Parse(message)
}

impl DeepgramConfig {
    /// Completes a stored table: each missing key gets its default.
    pub fn from_document(doc: DeepgramDocument) -> (config: Self)
        ensures
            config@ == spec_deepgram_from_document(doc@),
    {
        DeepgramConfig {
            filler_words: stored_flag(doc.filler_words),
            measurements: stored_flag(doc.measurements),
            numerals: stored_flag(doc.numerals),
            paragraphs: stored_flag(doc.paragraphs),
            profanity_filter: stored_flag(doc.profanity_filter),
            punctuate: stored_flag(doc.punctuate),
            smart_format: stored_flag(doc.smart_format),
            utterances: stored_flag(doc.utterances),
            utt_split: match doc.utt_split {
                Some(seconds) => seconds,
                None => default_utt_split(),
            },
            mip_opt_out: stored_flag(doc.mip_opt_out),
            detect_language: stored_flag(doc.detect_language),
        }
    }
}

impl ProvidersConfig {
    /// Completes a stored table, which may be missing as a whole: each
    /// missing table gets its defaults.
    pub fn from_document(doc: Option<ProvidersDocument>) -> (config: Self)
        ensures
            config@ == spec_providers_from_document(
                match doc {
                    Some(doc) => Some(doc@),
                    None => None,
                },
            ),
    {
        match doc {
            None => ProvidersConfig::default(),
            Some(doc) => ProvidersConfig {
                deepgram: match doc.deepgram {
                    Some(deepgram) => DeepgramConfig::from_document(deepgram),
                    None => DeepgramConfig::default(),
                },
                openai: OpenAiConfig {},
                parakeet: match doc.parakeet {
                    Some(parakeet) => ParakeetConfig { use_gpu: stored_flag(parakeet.use_gpu) },
                    None => ParakeetConfig::default(),
                },
            },
        }
    }
}

/// The view of an outcome that holds audio settings.
pub open spec fn audio_outcome_view(outcome: Result<AudioConfig, ConfigError>) -> Result<
    AudioConfigView,
    ConfigErrorView,
> {
    match outcome {
        Ok(config) => Ok(config@),
        Err(error) => Err(error@),
    }
}

/// The view of an outcome that holds a configuration.
pub open spec fn config_outcome_view(outcome: Result<OsttConfig, ConfigError>) -> Result<
    OsttConfigView,
    ConfigErrorView,
> {
    match outcome {
        Ok(config) => Ok(config@),
        Err(error) => Err(error@),
    }
}

impl AudioConfig {
    /// Completes a stored table. Fails with a `Parse` error exactly when
    /// the device or the sample rate is missing, naming the first of them
    /// that is; every other missing key gets its default.
    pub fn from_document(doc: AudioDocument) -> (outcome: Result<Self, ConfigError>)
        ensures
            audio_outcome_view(outcome) == spec_audio_from_document(doc@),
    {
        let device = match doc.device {
            Some(device) => device,
            None => {
                return Err(missing_field_error("device"));
            },
        };
        let sample_rate = match doc.sample_rate {
            Some(sample_rate) => sample_rate,
            None => {
                return Err(missing_field_error("sample_rate"));
            },
        };
        Ok(
            AudioConfig {
                device,
                sample_rate,
                peak_volume_threshold: match doc.peak_volume_threshold {
                    Some(threshold) => threshold,
                    None => default_peak_volume_threshold(),
                },
                reference_level_db: match doc.reference_level_db {
                    Some(level) => level,
                    None => default_reference_level_db(),
                },
                output_format: match doc.output_format {
                    Some(format) => format,
                    None => default_output_format(),
                },
            },
        )
    }
}

impl OsttConfig {
    /// Completes a stored document. Fails with a `Parse` error exactly
    /// when the audio table, its device or its sample rate is missing;
    /// everything else that is missing gets its default.
    pub fn from_document(doc: ConfigDocument) -> (outcome: Result<Self, ConfigError>)
        ensures
            config_outcome_view(outcome) == spec_from_document(doc@),
    {
        let audio = match doc.audio {
            Some(audio) => audio,
            None => {
                return Err(missing_field_error("audio"));
            },
        };
        match AudioConfig::from_document(audio) {
            Err(error) => Err(error),
            Ok(audio) => Ok(
                OsttConfig { audio, providers: ProvidersConfig::from_document(doc.providers) },
            ),
        }
    }

    /// The document that stores this configuration, with every key
    /// present.
    pub fn to_document(&self) -> (doc: ConfigDocument)
        ensures
            doc@ == spec_to_document(self@),
    {
        let deepgram = &self.providers.deepgram;
        ConfigDocument {
            audio: Some(
                AudioDocument {
                    device: Some(self.audio.device.clone()),
                    sample_rate: Some(self.audio.sample_rate),
                    peak_volume_threshold: Some(self.audio.peak_volume_threshold),
                    reference_level_db: Some(self.audio.reference_level_db),
                    output_format: Some(self.audio.output_format.clone()),
                },
            ),
            providers: Some(
                ProvidersDocument {
                    deepgram: Some(
                        DeepgramDocument {
                            filler_words: Some(deepgram.filler_words),
                            measurements: Some(deepgram.measurements),
                            numerals: Some(deepgram.numerals),
                            paragraphs: Some(deepgram.paragraphs),
                            profanity_filter: Some(deepgram.profanity_filter),
                            punctuate: Some(deepgram.punctuate),
                            smart_format: Some(deepgram.smart_format),
                            utterances: Some(deepgram.utterances),
                            utt_split: Some(deepgram.utt_split.clone()),
                            mip_opt_out: Some(deepgram.mip_opt_out),
                            detect_language: Some(deepgram.detect_language),
                        },
                    ),
                    openai: Some(OpenAiConfig {}),
                    parakeet: Some(ParakeetDocument { use_gpu: Some(self.providers.parakeet.use_gpu) }),
                },
            ),
        }
    }
}

/// Storing a configuration and completing what was stored gives the
/// configuration back, field for field.
pub proof fn lemma_document_round_trip(config: OsttConfigView)
    ensures
        spec_from_document(spec_to_document(config)) == Ok::<OsttConfigView, ConfigErrorView>(
            config,
        ),
{
}

/// A stored document and the document that stores its completion stand
/// for the same configuration: completing fills in defaults and changes
/// nothing else.
pub proof fn lemma_completion_is_stable(doc: ConfigDocumentView)
    requires
        spec_from_document(doc) is Ok,
    ensures
        spec_from_document(spec_to_document(spec_from_document(doc)->Ok_0)) == spec_from_document(
            doc,
        ),
{
    lemma_document_round_trip(spec_from_document(doc)->Ok_0);
}

/// A document without a providers table stands for the defaults of every
/// provider, beside whatever its audio table stands for.
pub proof fn lemma_missing_providers(audio: AudioDocumentView)
    ensures
        spec_from_document(ConfigDocumentView { audio: Some(audio), providers: None })
            == match spec_audio_from_document(audio) {
            Ok(audio) => Ok::<OsttConfigView, ConfigErrorView>(
                OsttConfigView { audio, providers: ProvidersConfigView::defaults() },
            ),
            Err(error) => Err(error),
        },
{
}

/// An audio table with every key present stands for exactly the settings
/// that it names.
pub proof fn lemma_audio_kept(audio: AudioConfigView)
    ensures
        spec_audio_from_document(spec_audio_to_document(audio)) == Ok::<
            AudioConfigView,
            ConfigErrorView,
        >(audio),
{
}

/// A Deepgram table without any key stands for the Deepgram defaults.
pub proof fn lemma_empty_deepgram_table()
    ensures
        spec_deepgram_from_document(
            DeepgramDocumentView {
                filler_words: None,
                measurements: None,
                numerals: None,
                paragraphs: None,
                profanity_filter: None,
                punctuate: None,
                smart_format: None,
                utterances: None,
                utt_split: None,
                mip_opt_out: None,
                detect_language: None,
            },
        ) == DeepgramConfigView::defaults(),
{
}

} // verus!
