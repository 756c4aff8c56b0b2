use ostt::config::document::AudioDocument;
use ostt::config::document::ConfigDocument;
use ostt::config::document::DeepgramDocument;
use ostt::config::document::ParakeetDocument;
use ostt::config::document::ProvidersDocument;
use ostt::config::error::ConfigError;
use ostt::config::file::default_output_format;
use ostt::config::file::default_peak_volume_threshold;
use ostt::config::file::default_reference_level_db;
use ostt::config::file::default_utt_split;
use ostt::config::file::AudioConfig;
use ostt::config::file::DeepgramConfig;
use ostt::config::file::OpenAiConfig;
use ostt::config::file::OsttConfig;
use ostt::config::file::ParakeetConfig;
use ostt::config::file::ProviderConfig;
use ostt::config::file::ProvidersConfig;
use ostt::config::location::config_dir;
use ostt::config::location::config_path;

fn empty_deepgram_table() -> DeepgramDocument {
    DeepgramDocument {
        filler_words: None,
        measurements: None,
        numerals: None,
        paragraphs: None,
        profanity_filter: None,
        punctuate: None,
        smart_format: None,
        utterances: None,
        utt_split: None,
        mip_opt_out: None,
        detect_language: None,
    }
}

fn minimal_audio_table() -> AudioDocument {
    AudioDocument {
        device: Some("default".to_string()),
        sample_rate: Some(16000),
        peak_volume_threshold: None,
        reference_level_db: None,
        output_format: None,
    }
}

fn custom_config() -> OsttConfig {
    OsttConfig {
        audio: AudioConfig {
            device: "USB Microphone".to_string(),
            sample_rate: 44100,
            peak_volume_threshold: 75,
            reference_level_db: -6,
            output_format: "ogg -ab 32k".to_string(),
        },
        providers: ProvidersConfig {
            deepgram: DeepgramConfig {
                filler_words: true,
                measurements: false,
                numerals: true,
                paragraphs: false,
                profanity_filter: true,
                punctuate: true,
                smart_format: false,
                utterances: true,
                utt_split: "1.25".to_string(),
                mip_opt_out: true,
                detect_language: false,
            },
            openai: OpenAiConfig {},
            parakeet: ParakeetConfig { use_gpu: true },
        },
    }
}

#[test]
fn default_values_of_optional_audio_keys() {
    assert_eq!(default_output_format(), "mp3 -ab 16k -ar 12000");
    assert_eq!(default_peak_volume_threshold(), 90);
    assert_eq!(default_reference_level_db(), -20);
    assert_eq!(default_utt_split(), "0.8");
}

#[test]
fn default_deepgram_options_are_all_off() {
    let options = DeepgramConfig::default();
    assert!(!options.filler_words);
    assert!(!options.measurements);
    assert!(!options.numerals);
    assert!(!options.paragraphs);
    assert!(!options.profanity_filter);
    assert!(!options.punctuate);
    assert!(!options.smart_format);
    assert!(!options.utterances);
    assert_eq!(options.utt_split, "0.8");
    assert!(!options.mip_opt_out);
    assert!(!options.detect_language);
}

#[test]
fn default_parakeet_options_leave_the_gpu_off() {
    assert_eq!(ParakeetConfig::default(), ParakeetConfig { use_gpu: false });
    assert_eq!(OpenAiConfig::default(), OpenAiConfig {});
}

#[test]
fn default_configuration_uses_the_default_device_at_16_khz() {
    let config = OsttConfig::default();
    assert_eq!(config.audio.device, "default");
    assert_eq!(config.audio.sample_rate, 16000);
    assert_eq!(config.audio.peak_volume_threshold, 90);
    assert_eq!(config.audio.reference_level_db, -20);
    assert_eq!(config.audio.output_format, "mp3 -ab 16k -ar 12000");
    assert_eq!(config.providers, ProvidersConfig::default());
    assert_eq!(config.providers.deepgram, DeepgramConfig::default());
    assert!(!config.providers.parakeet.use_gpu);
}

#[test]
fn provider_config_tags_the_options_of_one_provider() {
    let tagged = ProviderConfig::Parakeet(ParakeetConfig { use_gpu: true });
    assert!(matches!(tagged, ProviderConfig::Parakeet(ParakeetConfig { use_gpu: true })));
    assert_ne!(tagged, ProviderConfig::OpenAi(OpenAiConfig {}));
    assert_ne!(tagged, ProviderConfig::Deepgram(DeepgramConfig::default()));
}

#[test]
fn stored_then_completed_configuration_is_unchanged() {
    let config = custom_config();
    let document = config.to_document();
    assert_eq!(OsttConfig::from_document(document), Ok(custom_config()));
    let fresh = OsttConfig::default();
    assert_eq!(OsttConfig::from_document(fresh.to_document()), Ok(OsttConfig::default()));
}

#[test]
fn stored_document_names_every_key() {
    let document = custom_config().to_document();
    let audio = document.audio.expect("audio table");
    assert_eq!(audio.device, Some("USB Microphone".to_string()));
    assert_eq!(audio.sample_rate, Some(44100));
    assert_eq!(audio.peak_volume_threshold, Some(75));
    assert_eq!(audio.reference_level_db, Some(-6));
    assert_eq!(audio.output_format, Some("ogg -ab 32k".to_string()));
    let providers = document.providers.expect("providers table");
    let deepgram = providers.deepgram.expect("deepgram table");
    assert_eq!(deepgram.filler_words, Some(true));
    assert_eq!(deepgram.measurements, Some(false));
    assert_eq!(deepgram.utt_split, Some("1.25".to_string()));
    assert_eq!(deepgram.detect_language, Some(false));
    assert_eq!(providers.openai, Some(OpenAiConfig {}));
    assert_eq!(providers.parakeet, Some(ParakeetDocument { use_gpu: Some(true) }));
}

#[test]
fn document_without_providers_gets_every_default() {
    let document = ConfigDocument {
        audio: Some(AudioDocument {
            device: Some("2".to_string()),
            sample_rate: Some(48000),
            peak_volume_threshold: Some(60),
            reference_level_db: Some(-12),
            output_format: Some("wav".to_string()),
        }),
        providers: None,
    };
    let config = OsttConfig::from_document(document).expect("complete configuration");
    assert_eq!(
        config.audio,
        AudioConfig {
            device: "2".to_string(),
            sample_rate: 48000,
            peak_volume_threshold: 60,
            reference_level_db: -12,
            output_format: "wav".to_string(),
        }
    );
    assert_eq!(config.providers, ProvidersConfig::default());
    assert_eq!(config.providers.deepgram.utt_split, "0.8");
}

#[test]
fn missing_optional_audio_keys_get_their_defaults() {
    let document = ConfigDocument { audio: Some(minimal_audio_table()), providers: None };
    assert_eq!(OsttConfig::from_document(document), Ok(OsttConfig::default()));
}

#[test]
fn empty_provider_tables_get_their_defaults() {
    let document = ConfigDocument {
        audio: Some(minimal_audio_table()),
        providers: Some(ProvidersDocument {
            deepgram: Some(empty_deepgram_table()),
            openai: Some(OpenAiConfig {}),
            parakeet: Some(ParakeetDocument { use_gpu: None }),
        }),
    };
    assert_eq!(OsttConfig::from_document(document), Ok(OsttConfig::default()));
    let document = ConfigDocument {
        audio: Some(minimal_audio_table()),
        providers: Some(ProvidersDocument { deepgram: None, openai: None, parakeet: None }),
    };
    assert_eq!(OsttConfig::from_document(document), Ok(OsttConfig::default()));
}

#[test]
fn partly_stored_deepgram_table_keeps_what_it_names() {
    let mut table = empty_deepgram_table();
    table.punctuate = Some(true);
    table.utt_split = Some("1.5".to_string());
    table.smart_format = Some(false);
    let options = DeepgramConfig::from_document(table);
    let mut expected = DeepgramConfig::default();
    expected.punctuate = true;
    expected.utt_split = "1.5".to_string();
    assert_eq!(options, expected);
    let providers = ProvidersConfig::from_document(Some(ProvidersDocument {
        deepgram: None,
        openai: None,
        parakeet: Some(ParakeetDocument { use_gpu: Some(true) }),
    }));
    assert_eq!(providers.deepgram, DeepgramConfig::default());
    assert!(providers.parakeet.use_gpu);
}

#[test]
fn document_without_audio_table_is_a_parse_error() {
    let document = ConfigDocument { audio: None, providers: None };
    assert_eq!(
        OsttConfig::from_document(document),
        Err(ConfigError::Parse("missing field `audio`".to_string()))
    );
}

#[test]
fn audio_table_without_device_is_a_parse_error() {
    let mut audio = minimal_audio_table();
    audio.device = None;
    assert_eq!(
        AudioConfig::from_document(audio.clone()),
        Err(ConfigError::Parse("missing field `device`".to_string()))
    );
    audio.sample_rate = None;
    let document = ConfigDocument { audio: Some(audio), providers: None };
    assert_eq!(
        OsttConfig::from_document(document),
        Err(ConfigError::Parse("missing field `device`".to_string()))
    );
}

#[test]
fn audio_table_without_sample_rate_is_a_parse_error() {
    let mut audio = minimal_audio_table();
    audio.sample_rate = None;
    let document = ConfigDocument { audio: Some(audio), providers: None };
    assert_eq!(
        OsttConfig::from_document(document),
        Err(ConfigError::Parse("missing field `sample_rate`".to_string()))
    );
}

#[test]
fn configuration_file_lies_below_the_home_directory() {
    let home = Some("/home/ada".to_string());
    assert_eq!(config_dir(&home), Ok("/home/ada/.config/ostt".to_string()));
    assert_eq!(config_path(&home), Ok("/home/ada/.config/ostt/ostt.toml".to_string()));
}

#[test]
fn unknown_home_directory_is_not_found() {
    let expected = ConfigError::NotFound("Could not find home directory".to_string());
    assert_eq!(config_dir(&None), Err(expected.clone()));
    assert_eq!(config_path(&None), Err(expected));
}

#[test]
fn config_error_message_is_its_text() {
    assert_eq!(ConfigError::Io("disk full".to_string()).message(), "disk full");
    assert_eq!(ConfigError::Parse("bad key".to_string()).message(), "bad key");
    assert_eq!(ConfigError::NotFound("no home".to_string()).message(), "no home");
}
