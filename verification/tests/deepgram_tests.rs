use ostt::config::file::DeepgramConfig;
use ostt::config::file::ProvidersConfig;
use ostt::text::chars_of;
use ostt::text::contains_text;
use ostt::text::decimal_text;
use ostt::text::joined;
use ostt::transcription::api::deepgram::audio_read_error;
use ostt::transcription::api::deepgram::build_request;
use ostt::transcription::api::deepgram::decode_error;
use ostt::transcription::api::deepgram::extract_transcript;
use ostt::transcription::api::deepgram::is_success;
use ostt::transcription::api::deepgram::next_action;
use ostt::transcription::api::deepgram::send_error;
use ostt::transcription::api::deepgram::status_error;
use ostt::transcription::api::deepgram::Action;
use ostt::transcription::api::deepgram::DeepgramAlternative;
use ostt::transcription::api::deepgram::DeepgramChannel;
use ostt::transcription::api::deepgram::DeepgramRequest;
use ostt::transcription::api::deepgram::DeepgramResponse;
use ostt::transcription::api::deepgram::DeepgramResults;
use ostt::transcription::api::deepgram::Event;
use ostt::transcription::api::deepgram::SendFailure;
use ostt::transcription::api::deepgram::TranscribeError;
use ostt::transcription::api::query::keyword_param_name;
use ostt::transcription::api::query::request_url;
use ostt::transcription::api::TranscriptionConfig;
use ostt::transcription::model::TranscriptionModel;

const ENDPOINT: &str = "https://api.deepgram.com/v1/listen";

fn context(model: TranscriptionModel, name: &str, options: DeepgramConfig) -> TranscriptionConfig {
    let mut providers = ProvidersConfig::default();
    providers.deepgram = options;
    TranscriptionConfig {
        model,
        model_name: name.to_string(),
        endpoint: ENDPOINT.to_string(),
        api_key: "k-123".to_string(),
        keywords: Vec::new(),
        providers,
    }
}

fn response(channels: Vec<Vec<&str>>) -> DeepgramResponse {
    DeepgramResponse {
        results: DeepgramResults {
            channels: channels
                .into_iter()
                .map(|alternatives| DeepgramChannel {
                    alternatives: alternatives
                        .into_iter()
                        .map(|t| DeepgramAlternative { transcript: t.to_string() })
                        .collect(),
                })
                .collect(),
        },
    }
}

fn count_of(hay: &str, needle: &str) -> usize {
    hay.matches(needle).count()
}

#[test]
fn default_options_give_only_the_model() {
    let config = context(TranscriptionModel::DeepgramNova3, "nova-3", DeepgramConfig::default());
    assert_eq!(request_url(&config), "https://api.deepgram.com/v1/listen?model=nova-3");
}

#[test]
fn default_pause_length_never_stands_in_the_address() {
    let mut options = DeepgramConfig::default();
    options.utt_split = "0.8".to_string();
    options.utterances = true;
    let config = context(TranscriptionModel::DeepgramNova2, "nova-2", options);
    let url = request_url(&config);
    assert_eq!(url, "https://api.deepgram.com/v1/listen?model=nova-2&utterances=true");
    assert_eq!(count_of(&url, "utt_split"), 0);
}

#[test]
fn other_pause_length_stands_in_the_address_once_as_given() {
    for seconds in ["1.5", "0.80", "0.8000000000000002", "0", "2"] {
        let mut options = DeepgramConfig::default();
        options.utt_split = seconds.to_string();
        let config = context(TranscriptionModel::DeepgramNova2, "nova-2", options);
        let url = request_url(&config);
        assert_eq!(url, format!("{}?model=nova-2&utt_split={}", ENDPOINT, seconds));
        assert_eq!(count_of(&url, "utt_split"), 1);
    }
}

#[test]
fn punctuate_alone_is_the_only_flag_in_the_query() {
    let mut options = DeepgramConfig::default();
    options.punctuate = true;
    options.smart_format = false;
    let config = context(TranscriptionModel::DeepgramNova2, "nova-2", options);
    let url = request_url(&config);
    let query = url.split_once('?').expect("a query").1;
    assert_eq!(query, "model=nova-2&punctuate=true");
    assert!(query.contains("punctuate=true"));
    assert!(!query.contains("smart_format"));
    assert!(!query.contains("utt_split"));
}

#[test]
fn every_option_stands_in_request_order() {
    let options = DeepgramConfig {
        filler_words: true,
        measurements: true,
        numerals: true,
        paragraphs: true,
        profanity_filter: true,
        punctuate: true,
        smart_format: true,
        utterances: true,
        utt_split: "1.2".to_string(),
        mip_opt_out: true,
        detect_language: true,
    };
    let config = context(TranscriptionModel::DeepgramNova3, "nova-3", options);
    assert_eq!(
        request_url(&config),
        "https://api.deepgram.com/v1/listen?model=nova-3&filler_words=true&measurements=true\
         &numerals=true&paragraphs=true&profanity_filter=true&punctuate=true&smart_format=true\
         &utterances=true&utt_split=1.2&mip_opt_out=true&detect_language=true"
    );
}

#[test]
fn flags_that_are_off_are_left_out() {
    let mut options = DeepgramConfig::default();
    options.measurements = true;
    options.mip_opt_out = true;
    let config = context(TranscriptionModel::Other, "base", options);
    assert_eq!(
        request_url(&config),
        "https://api.deepgram.com/v1/listen?model=base&measurements=true&mip_opt_out=true"
    );
}

#[test]
fn keyterms_are_percent_encoded_one_parameter_each() {
    let mut config =
        context(TranscriptionModel::DeepgramNova3, "nova-3", DeepgramConfig::default());
    config.keywords = vec!["alpha".to_string(), "beta gamma".to_string(), "delta".to_string()];
    let url = request_url(&config);
    assert_eq!(
        url,
        "https://api.deepgram.com/v1/listen?model=nova-3&keyterm=alpha&keyterm=beta%20gamma\
         &keyterm=delta"
    );
    assert_eq!(count_of(&url, "keyterm="), 3);
    assert!(!url.contains("beta gamma"));
}

#[test]
fn other_models_take_keywords() {
    assert_eq!(keyword_param_name(TranscriptionModel::DeepgramNova3), "keyterm");
    assert_eq!(keyword_param_name(TranscriptionModel::DeepgramNova2), "keywords");
    assert_eq!(keyword_param_name(TranscriptionModel::Other), "keywords");
    let mut options = DeepgramConfig::default();
    options.detect_language = true;
    let mut config = context(TranscriptionModel::DeepgramNova2, "nova-2", options);
    config.keywords = vec!["ostt".to_string()];
    assert_eq!(
        request_url(&config),
        "https://api.deepgram.com/v1/listen?model=nova-2&detect_language=true&keywords=ostt"
    );
    config.model = TranscriptionModel::Other;
    assert_eq!(
        request_url(&config),
        "https://api.deepgram.com/v1/listen?model=nova-2&detect_language=true&keywords=ostt"
    );
}

#[test]
fn keywords_keep_unreserved_bytes_and_encode_the_rest() {
    let mut config =
        context(TranscriptionModel::DeepgramNova2, "nova-2", DeepgramConfig::default());
    config.keywords = vec!["Az09-_.~".to_string(), "a&b=c/d?".to_string(), "caf\u{e9}".to_string()];
    assert_eq!(
        request_url(&config),
        "https://api.deepgram.com/v1/listen?model=nova-2&keywords=Az09-_.~\
         &keywords=a%26b%3Dc%2Fd%3F&keywords=caf%C3%A9"
    );
}

#[test]
fn request_carries_the_key_the_content_type_and_the_audio() {
    let mut options = DeepgramConfig::default();
    options.punctuate = true;
    let config = context(TranscriptionModel::DeepgramNova3, "nova-3", options);
    let request = build_request(&config, vec![0, 255, 7, 7]);
    assert_eq!(
        request,
        DeepgramRequest {
            url: "https://api.deepgram.com/v1/listen?model=nova-3&punctuate=true".to_string(),
            authorization: "Token k-123".to_string(),
            content_type: "audio/mpeg".to_string(),
            body: vec![0, 255, 7, 7],
        }
    );
}

#[test]
fn reply_without_channels_has_no_transcript() {
    assert_eq!(
        extract_transcript(&response(vec![])),
        Err(TranscribeError::ResponseParse("No transcript found in Deepgram response".to_string()))
    );
}

#[test]
fn channel_without_alternatives_has_no_transcript() {
    assert_eq!(
        extract_transcript(&response(vec![vec![], vec!["second channel"]])),
        Err(TranscribeError::ResponseParse("No transcript found in Deepgram response".to_string()))
    );
}

#[test]
fn transcript_is_the_first_alternative_of_the_first_channel() {
    let reply = response(vec![vec!["hello world", "hollow word"], vec!["other"]]);
    assert_eq!(extract_transcript(&reply), Ok("hello world".to_string()));
    assert_eq!(extract_transcript(&response(vec![vec![""]])), Ok(String::new()));
}

#[test]
fn rate_limit_key_and_server_messages_differ() {
    let limited = status_error(429, "Too Many Requests", &Some("slow down".to_string()));
    let unauthorised = status_error(401, "Unauthorized", &Some("bad key".to_string()));
    let unavailable = status_error(503, "Service Unavailable", &None);
    assert_eq!(
        limited,
        TranscribeError::ProviderRequest {
            status: 429,
            message: "Too many requests to Deepgram. You've hit the API rate limit. Please wait \
                      and try again."
                .to_string(),
        }
    );
    assert_eq!(
        unauthorised.message(),
        "Deepgram API key is invalid or expired. Please run 'ostt auth' to update your API key."
    );
    assert_eq!(
        unavailable.message(),
        "Deepgram API server is experiencing issues. Please try again later."
    );
    assert!(limited.message().contains("rate limit"));
    assert!(unauthorised.message().contains("invalid or expired"));
    assert!(unavailable.message().contains("experiencing issues"));
    assert_ne!(limited.message(), unauthorised.message());
    assert_ne!(limited.message(), unavailable.message());
    assert_ne!(unauthorised.message(), unavailable.message());
}

#[test]
fn forbidden_status_names_permission() {
    assert_eq!(
        status_error(403, "Forbidden", &None),
        TranscribeError::ProviderRequest {
            status: 403,
            message: "You don't have permission to use Deepgram's API. Check your API key and \
                      account status."
                .to_string(),
        }
    );
}

#[test]
fn server_statuses_share_one_message() {
    for status in [500u16, 502, 503, 504] {
        assert_eq!(
            status_error(status, "whatever", &Some("ignored".to_string())),
            TranscribeError::ProviderRequest {
                status,
                message: "Deepgram API server is experiencing issues. Please try again later."
                    .to_string(),
            }
        );
    }
}

#[test]
fn other_statuses_name_the_status_and_the_body() {
    assert_eq!(
        status_error(404, "Not Found", &Some("{\"err_msg\":\"no such route\"}".to_string())),
        TranscribeError::ProviderRequest {
            status: 404,
            message: "Deepgram API error (status 404 Not Found): {\"err_msg\":\"no such route\"}"
                .to_string(),
        }
    );
    assert_eq!(
        status_error(501, "Not Implemented", &None).message(),
        "Deepgram API error (status 501 Not Implemented): Unknown error"
    );
    assert_eq!(
        status_error(400, "Bad Request", &Some(String::new())).message(),
        "Deepgram API error (status 400 Bad Request): "
    );
}

#[test]
fn success_is_a_status_from_200_to_299() {
    assert!(!is_success(199));
    assert!(is_success(200));
    assert!(is_success(204));
    assert!(is_success(299));
    assert!(!is_success(300));
    assert!(!is_success(0));
    assert!(!is_success(u16::MAX));
}

#[test]
fn failed_connection_is_reported_first() {
    let failure = SendFailure { is_connect: true, is_timeout: true, text: "builder".to_string() };
    assert_eq!(
        send_error(&failure),
        TranscribeError::NetworkConnect(
            "Failed to connect to Deepgram API server. Check your internet connection."
                .to_string()
        )
    );
}

#[test]
fn timeout_is_reported_before_the_text_is_read() {
    let failure =
        SendFailure { is_connect: false, is_timeout: true, text: "builder error".to_string() };
    assert_eq!(
        send_error(&failure),
        TranscribeError::NetworkTimeout(
            "Request to Deepgram timed out. The API server is not responding.".to_string()
        )
    );
}

#[test]
fn builder_failure_is_a_configuration_error() {
    let failure = SendFailure {
        is_connect: false,
        is_timeout: false,
        text: "builder error: relative URL without a base".to_string(),
    };
    assert_eq!(
        send_error(&failure),
        TranscribeError::NetworkOther(
            "Failed to build Deepgram API request: builder error: relative URL without a base. \
             This may be a configuration error."
                .to_string()
        )
    );
}

#[test]
fn any_other_send_failure_carries_its_text() {
    let failure = SendFailure {
        is_connect: false,
        is_timeout: false,
        text: "error sending request".to_string(),
    };
    assert_eq!(
        send_error(&failure),
        TranscribeError::NetworkOther("Deepgram network error: error sending request".to_string())
    );
}

#[test]
fn unreadable_audio_names_the_cause() {
    assert_eq!(
        audio_read_error("No such file or directory (os error 2)"),
        TranscribeError::AudioFileIo(
            "Failed to read audio file: No such file or directory (os error 2)".to_string()
        )
    );
}

#[test]
fn undecodable_reply_names_the_cause() {
    assert_eq!(
        decode_error("error decoding response body"),
        TranscribeError::ResponseParse(
            "Failed to parse Deepgram response: error decoding response body".to_string()
        )
    );
}

#[test]
fn audio_that_was_read_is_sent() {
    let config = context(TranscriptionModel::DeepgramNova3, "nova-3", DeepgramConfig::default());
    let action = next_action(&config, Event::AudioRead(Ok(vec![1, 2, 3])));
    assert_eq!(action, Action::Send(build_request(&config, vec![1, 2, 3])));
}

#[test]
fn audio_that_could_not_be_read_ends_the_call() {
    let config = context(TranscriptionModel::DeepgramNova3, "nova-3", DeepgramConfig::default());
    assert_eq!(
        next_action(&config, Event::AudioRead(Err("permission denied".to_string()))),
        Action::Finish(Err(TranscribeError::AudioFileIo(
            "Failed to read audio file: permission denied".to_string()
        )))
    );
}

#[test]
fn reply_is_decoded_on_success_and_read_as_text_otherwise() {
    let config = context(TranscriptionModel::DeepgramNova3, "nova-3", DeepgramConfig::default());
    assert_eq!(next_action(&config, Event::Replied { status: 200 }), Action::DecodeBody);
    assert_eq!(next_action(&config, Event::Replied { status: 299 }), Action::DecodeBody);
    assert_eq!(next_action(&config, Event::Replied { status: 429 }), Action::ReadErrorBody);
    assert_eq!(next_action(&config, Event::Replied { status: 302 }), Action::ReadErrorBody);
}

#[test]
fn every_failure_ends_the_call() {
    let config = context(TranscriptionModel::DeepgramNova2, "nova-2", DeepgramConfig::default());
    let failure =
        SendFailure { is_connect: false, is_timeout: true, text: "timed out".to_string() };
    assert_eq!(
        next_action(&config, Event::SendFailed(failure.clone())),
        Action::Finish(Err(send_error(&failure)))
    );
    assert_eq!(
        next_action(
            &config,
            Event::ErrorBodyRead { status: 429, reason: "Too Many Requests".to_string(), body: None }
        ),
        Action::Finish(Err(status_error(429, "Too Many Requests", &None)))
    );
    assert_eq!(
        next_action(&config, Event::BodyDecoded(Err("expected value".to_string()))),
        Action::Finish(Err(decode_error("expected value")))
    );
    assert_eq!(
        next_action(&config, Event::BodyDecoded(Ok(response(vec![])))),
        Action::Finish(Err(TranscribeError::ResponseParse(
            "No transcript found in Deepgram response".to_string()
        )))
    );
}

#[test]
fn decoded_reply_ends_the_call_with_its_transcript() {
    let config = context(TranscriptionModel::DeepgramNova2, "nova-2", DeepgramConfig::default());
    assert_eq!(
        next_action(&config, Event::BodyDecoded(Ok(response(vec![vec!["good morning"]])))),
        Action::Finish(Ok("good morning".to_string()))
    );
}

#[test]
fn text_search_finds_a_word_anywhere() {
    assert!(contains_text("reqwest builder error", "builder"));
    assert!(contains_text("builder", "builder"));
    assert!(contains_text("xbuilder", "builder"));
    assert!(contains_text("anything", ""));
    assert!(contains_text("", ""));
    assert!(!contains_text("", "builder"));
    assert!(!contains_text("build", "builder"));
    assert!(!contains_text("buil der", "builder"));
    assert!(!contains_text("Builder", "builder"));
    assert!(contains_text("na\u{ef}ve b\u{fc}ilder builder", "builder"));
    assert!(contains_text("aab", "ab"));
}

#[test]
fn decimal_text_writes_a_number_without_leading_zeros() {
    assert_eq!(decimal_text(0), "0");
    assert_eq!(decimal_text(7), "7");
    assert_eq!(decimal_text(10), "10");
    assert_eq!(decimal_text(404), "404");
    assert_eq!(decimal_text(1234), "1234");
    assert_eq!(decimal_text(u16::MAX), "65535");
}

#[test]
fn characters_and_joined_texts() {
    assert_eq!(chars_of("h\u{e9}!"), vec!['h', '\u{e9}', '!']);
    assert_eq!(chars_of(""), Vec::<char>::new());
    assert_eq!(joined("Token ", "abc"), "Token abc");
    assert_eq!(joined("", ""), "");
}
