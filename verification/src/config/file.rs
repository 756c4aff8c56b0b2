//! The configuration data model and its default values.

use vstd::prelude::*;
use vstd::string::StringExecFns;

verus! {

/// Audio capture and encoding settings.
#[derive(Debug, Clone, PartialEq, Eq)]
pub struct AudioConfig {
    /// Capture device: `"default"`, a numeric index, or a device name.
    pub device: String,
    /// Sample rate in Hz.
    pub sample_rate: u32,
    /// Peak volume threshold of the level meter, as a percentage.
    pub peak_volume_threshold: u8,
    /// Level in dBFS that the meter shows as 100%.
    pub reference_level_db: i8,
    /// Output codec followed by encoder options.
    pub output_format: String,
}

/// Mathematical model of [`AudioConfig`].
pub struct AudioConfigView {
    pub device: Seq<char>,
    pub sample_rate: u32,
    pub peak_volume_threshold: u8,
    pub reference_level_db: i8,
    pub output_format: Seq<char>,
}

impl View for AudioConfig {
    type V = AudioConfigView;

    open spec fn view(&self) -> AudioConfigView {
        AudioConfigView {
            device: self.device@,
            sample_rate: self.sample_rate,
            peak_volume_threshold: self.peak_volume_threshold,
            reference_level_db: self.reference_level_db,
            output_format: self.output_format@,
        }
    }
}

/// The output format used when a document names none.
pub open spec fn spec_default_output_format() -> Seq<char> {
    "mp3 -ab 16k -ar 12000"@
}

/// The pause length, as decimal text, used when a document names none.
pub open spec fn spec_default_utt_split() -> Seq<char> {
    "0.8"@
}

/// The device name of a fresh configuration.
pub open spec fn spec_default_device() -> Seq<char> {
    "default"@
}

pub fn default_output_format() -> (format: String)
    ensures
        format@ == spec_default_output_format(),
{
    String::from_str("mp3 -ab 16k -ar 12000")
}

pub fn default_peak_volume_threshold() -> (threshold: u8)
    ensures
        threshold == 90,
{
    90
}

pub fn default_reference_level_db() -> (level: i8)
    ensures
        level == -20,
{
    -20
}

/// The default pause length between utterances, in seconds, as decimal text.
pub fn default_utt_split() -> (seconds: String)
    ensures
        seconds@ == spec_default_utt_split(),
{
    String::from_str("0.8")
}

/// Options of the Deepgram service.
#[derive(Debug, Clone, PartialEq, Eq)]
pub struct DeepgramConfig {
    /// Keep filler words ("uh", "um") in the transcript.
    pub filler_words: bool,
    /// Abbreviate spoken measurements.
    pub measurements: bool,
    /// Write numbers as digits.
    pub numerals: bool,
    /// Split the transcript into paragraphs.
    pub paragraphs: bool,
    /// Mask profanity.
    pub profanity_filter: bool,
    /// Add punctuation and capitalisation.
    pub punctuate: bool,
    /// Apply smart formatting.
    pub smart_format: bool,
    /// Segment speech into utterances.
    pub utterances: bool,
    /// Seconds of silence that separate two utterances, as decimal text.
    pub utt_split: String,
    /// Opt out of the model improvement programme.
    pub mip_opt_out: bool,
    /// Detect the spoken language.
    pub detect_language: bool,
}

/// Mathematical model of [`DeepgramConfig`].
pub struct DeepgramConfigView {
    pub filler_words: bool,
    pub measurements: bool,
    pub numerals: bool,
    pub paragraphs: bool,
    pub profanity_filter: bool,
    pub punctuate: bool,
    pub smart_format: bool,
    pub utterances: bool,
    pub utt_split: Seq<char>,
    pub mip_opt_out: bool,
    pub detect_language: bool,
}

impl View for DeepgramConfig {
    type V = DeepgramConfigView;

    open spec fn view(&self) -> DeepgramConfigView {
        DeepgramConfigView {
            filler_words: self.filler_words,
            measurements: self.measurements,
            numerals: self.numerals,
            paragraphs: self.paragraphs,
            profanity_filter: self.profanity_filter,
            punctuate: self.punctuate,
            smart_format: self.smart_format,
            utterances: self.utterances,
            utt_split: self.utt_split@,
            mip_opt_out: self.mip_opt_out,
            detect_language: self.detect_language,
        }
    }
}

impl DeepgramConfigView {
    /// Every flag off and the default pause length.
    pub open spec fn defaults() -> DeepgramConfigView {
        DeepgramConfigView {
            filler_words: false,
            measurements: false,
            numerals: false,
            paragraphs: false,
            profanity_filter: false,
            punctuate: false,
            smart_format: false,
            utterances: false,
            utt_split: spec_default_utt_split(),
            mip_opt_out: false,
            detect_language: false,
        }
    }
}

impl Default for DeepgramConfig {
    fn default() -> (config: Self)
        ensures
            config@ == DeepgramConfigView::defaults(),
    {
        DeepgramConfig {
            filler_words: false,
            measurements: false,
            numerals: false,
            paragraphs: false,
            profanity_filter: false,
            punctuate: false,
            smart_format: false,
            utterances: false,
            utt_split: default_utt_split(),
            mip_opt_out: false,
            detect_language: false,
        }
    }
}

/// Options of the OpenAI service: none so far.
#[derive(Debug, Clone, PartialEq, Eq)]
pub struct OpenAiConfig {}

impl Default for OpenAiConfig {
    fn default() -> (config: Self)
        ensures
            config == (OpenAiConfig {}),
    {
        OpenAiConfig {}
    }
}

/// Options of the local Parakeet model.
#[derive(Debug, Clone, PartialEq, Eq)]
pub struct ParakeetConfig {
    /// Use GPU acceleration where available.
    pub use_gpu: bool,
}

impl Default for ParakeetConfig {
    fn default() -> (config: Self)
        ensures
            config.use_gpu == false,
    {
        ParakeetConfig { use_gpu: false }
    }
}

/// The options of one provider, tagged by the provider.
#[derive(Debug, Clone, PartialEq, Eq)]
pub enum ProviderConfig {
    Deepgram(DeepgramConfig),
    OpenAi(OpenAiConfig),
    Parakeet(ParakeetConfig),
}

/// The options of every provider.
#[derive(Debug, Clone, PartialEq, Eq)]
pub struct ProvidersConfig {
    pub deepgram: DeepgramConfig,
    pub openai: OpenAiConfig,
    pub parakeet: ParakeetConfig,
}

/// Mathematical model of [`ProvidersConfig`].
pub struct ProvidersConfigView {
    pub deepgram: DeepgramConfigView,
    pub openai: OpenAiConfig,
    pub parakeet: ParakeetConfig,
}

impl View for ProvidersConfig {
    type V = ProvidersConfigView;

    open spec fn view(&self) -> ProvidersConfigView {
        ProvidersConfigView {
            deepgram: self.deepgram@,
            openai: self.openai,
            parakeet: self.parakeet,
        }
    }
}

impl ProvidersConfigView {
    /// The defaults of every provider.
    pub open spec fn defaults() -> ProvidersConfigView {
        ProvidersConfigView {
            deepgram: DeepgramConfigView::defaults(),
            openai: OpenAiConfig {},
            parakeet: ParakeetConfig { use_gpu: false },
        }
    }
}

impl Default for ProvidersConfig {
    fn default() -> (config: Self)
        ensures
            config@ == ProvidersConfigView::defaults(),
    {
        ProvidersConfig {
            deepgram: DeepgramConfig::default(),
            openai: OpenAiConfig::default(),
            parakeet: ParakeetConfig::default(),
        }
    }
}

/// The complete configuration.
#[derive(Debug, Clone, PartialEq, Eq)]
pub struct OsttConfig {
    pub audio: AudioConfig,
    pub providers: ProvidersConfig,
}

/// Mathematical model of [`OsttConfig`].
pub struct OsttConfigView {
    pub audio: AudioConfigView,
    pub providers: ProvidersConfigView,
}

impl View for OsttConfig {
    type V = OsttConfigView;

    open spec fn view(&self) -> OsttConfigView {
        OsttConfigView { audio: self.audio@, providers: self.providers@ }
    }
}

impl OsttConfigView {
    /// The configuration of a fresh installation.
    pub open spec fn defaults() -> OsttConfigView {
        OsttConfigView {
            audio: AudioConfigView {
                device: spec_default_device(),
                sample_rate: 16000,
                peak_volume_threshold: 90,
                reference_level_db: -20i8,
                output_format: spec_default_output_format(),
            },
            providers: ProvidersConfigView::defaults(),
        }
    }
}

impl OsttConfig {
    /// The configuration of a fresh installation: the default device at
    /// 16 kHz and the defaults of every other setting.
    pub fn default() -> (config: Self)
        ensures
            config@ == OsttConfigView::defaults(),
    {
        OsttConfig {
            audio: AudioConfig {
                device: String::from_str("default"),
                sample_rate: 16000,
                peak_volume_threshold: default_peak_volume_threshold(),
                reference_level_db: default_reference_level_db(),
                output_format: default_output_format(),
            },
            providers: ProvidersConfig::default(),
        }
    }
}

} // verus!
