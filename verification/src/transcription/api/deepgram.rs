//! The Deepgram adapter: the request that a transcription call sends, what
//! each failure is reported as, and how the transcript is taken from the
//! reply. The adapter decides; its caller reads the file and talks to the
//! network.

use vstd::prelude::*;
use vstd::string::StringExecFns;
use crate::text::contains_seq;
use crate::text::contains_text;
use crate::text::decimal;
use crate::text::decimal_text;
use crate::text::joined;
use crate::text::text_of;
use crate::transcription::api::TranscriptionConfig;
use crate::transcription::api::TranscriptionConfigView;
use crate::transcription::api::query::request_url;
use crate::transcription::api::query::spec_request_url;

verus! {

/// Why a transcription call failed. Every variant carries the message that
/// is shown to the user.
#[derive(Debug, Clone, PartialEq, Eq)]
pub enum TranscribeError {
    /// The audio file could not be read.
    AudioFileIo(String),
    /// No connection to the service could be made.
    NetworkConnect(String),
    /// The service did not answer in time.
    NetworkTimeout(String),
    /// Any other failure to send the request.
    NetworkOther(String),
    /// The service answered with a status other than success.
    ProviderRequest { status: u16, message: String },
    /// The reply does not hold a transcript.
    ResponseParse(String),
}

/// Mathematical model of [`TranscribeError`].
pub enum TranscribeErrorView {
    AudioFileIo(Seq<char>),
    NetworkConnect(Seq<char>),
    NetworkTimeout(Seq<char>),
    NetworkOther(Seq<char>),
    ProviderRequest { status: u16, message: Seq<char> },
    ResponseParse(Seq<char>),
}

impl View for TranscribeError {
    type V = TranscribeErrorView;

    open spec fn view(&self) -> TranscribeErrorView {
        match self {
            TranscribeError::AudioFileIo(m) => TranscribeErrorView::AudioFileIo(m@),
            TranscribeError::NetworkConnect(m) => TranscribeErrorView::NetworkConnect(m@),
            TranscribeError::NetworkTimeout(m) => TranscribeErrorView::NetworkTimeout(m@),
            TranscribeError::NetworkOther(m) => TranscribeErrorView::NetworkOther(m@),
            TranscribeError::ProviderRequest { status, message } => {
                TranscribeErrorView::ProviderRequest { status: *status, message: message@ }
            },
            TranscribeError::ResponseParse(m) => TranscribeErrorView::ResponseParse(m@),
        }
    }
}

impl TranscribeErrorView {
    /// The message of the error.
    pub open spec fn message(self) -> Seq<char> {
        match self {
            TranscribeErrorView::AudioFileIo(m) => m,
            TranscribeErrorView::NetworkConnect(m) => m,
            TranscribeErrorView::NetworkTimeout(m) => m,
            TranscribeErrorView::NetworkOther(m) => m,
            TranscribeErrorView::ProviderRequest { status, message } => message,
            TranscribeErrorView::ResponseParse(m) => m,
        }
    }
}

impl TranscribeError {
    /// The message of the error, fit for display.
    pub fn message(&self) -> (text: String)
        ensures
            text@ == self@.message(),
    {
        match self {
            TranscribeError::AudioFileIo(m) => m.clone(),
            TranscribeError::NetworkConnect(m) => m.clone(),
            TranscribeError::NetworkTimeout(m) => m.clone(),
            TranscribeError::NetworkOther(m) => m.clone(),
            TranscribeError::ProviderRequest { status, message } => message.clone(),
            TranscribeError::ResponseParse(m) => m.clone(),
        }
    }
}

/// The error of an audio file that could not be read, for the cause given.
pub open spec fn spec_audio_read_error(cause: Seq<char>) -> TranscribeErrorView {
    TranscribeErrorView::AudioFileIo("Failed to read audio file: "@ + cause)
}

/// The error of an audio file that could not be read: its message names
/// the cause.
pub fn audio_read_error(cause: &str) -> (error: TranscribeError)
    ensures
        error@ == spec_audio_read_error(cause@),
{
    TranscribeError::AudioFileIo(joined("Failed to read audio file: ", cause))
}

/// What is known of a request that could not be sent.
#[derive(Debug, Clone, PartialEq, Eq)]
pub struct SendFailure {
    /// The connection could not be made.
    pub is_connect: bool,
    /// The request ran into a timeout.
    pub is_timeout: bool,
    /// The failure in words.
    pub text: String,
}

/// Mathematical model of [`SendFailure`].
pub struct SendFailureView {
    pub is_connect: bool,
    pub is_timeout: bool,
    pub text: Seq<char>,
}

impl View for SendFailure {
    type V = SendFailureView;

    open spec fn view(&self) -> SendFailureView {
        SendFailureView {
            is_connect: self.is_connect,
            is_timeout: self.is_timeout,
            text: self.text@,
        }
    }
}

/// The error that a failure to send is reported as: a failed connection
/// first, then a timeout, then a request that could not be built (its text
/// holds the word `builder`), then anything else.
pub open spec fn spec_send_error(failure: SendFailureView) -> TranscribeErrorView {
    if failure.is_connect {
        TranscribeErrorView::NetworkConnect(
            "Failed to connect to Deepgram API server. Check your internet connection."@,
        )
    } else if failure.is_timeout {
        TranscribeErrorView::NetworkTimeout(
            "Request to Deepgram timed out. The API server is not responding."@,
        )
    } else if contains_seq(failure.text, "builder"@) {
        TranscribeErrorView::NetworkOther(
            "Failed to build Deepgram API request: "@ + failure.text
                + ". This may be a configuration error."@,
        )
    } else {
        TranscribeErrorView::NetworkOther("Deepgram network error: "@ + failure.text)
    }
}

/// Reports a failure to send the request.
pub fn send_error(failure: &SendFailure) -> (error: TranscribeError)
    ensures
        error@ == spec_send_error(failure@),
{
    if failure.is_connect {
        TranscribeError::NetworkConnect(
            String::from_str(
                "Failed to connect to Deepgram API server. Check your internet connection.",
            ),
        )
    } else if failure.is_timeout {
        TranscribeError::NetworkTimeout(
            String::from_str("Request to Deepgram timed out. The API server is not responding."),
        )
    } else if contains_text(failure.text.as_str(), "builder") {
        let mut message = joined("Failed to build Deepgram API request: ", failure.text.as_str());
        message.append(". This may be a configuration error.");
        TranscribeError::NetworkOther(message)
    } else {
        TranscribeError::NetworkOther(joined("Deepgram network error: ", failure.text.as_str()))
    }
}

/// A status that reports success: 200 to 299.
pub open spec fn spec_is_success(status: u16) -> bool {
    200 <= status < 300
}

/// Whether `status` reports success.
pub fn is_success(status: u16) -> (success: bool)
    ensures
        success == spec_is_success(status),
{
    200 <= status && status < 300
}

/// The text of a reply's body, or `Unknown error` where it could not be
/// read.
pub open spec fn body_text(body: Option<Seq<char>>) -> Seq<char> {
    match body {
        Some(text) => text,
        None => "Unknown error"@,
    }
}

/// The guidance given for a status: for 401 that the key is invalid or
/// expired, for 403 that permission is missing, for 429 that the rate
/// limit was hit, for 500, 502, 503 and 504 that the server has issues, and
/// for any other the status, its reason and the reply's body.
pub open spec fn spec_status_message(
    status: u16,
    reason: Seq<char>,
    body: Option<Seq<char>>,
) -> Seq<char> {
    if status == 401 {
        "Deepgram API key is invalid or expired. Please run 'ostt auth' to update your API key."@
    } else if status == 403 {
        "You don't have permission to use Deepgram's API. Check your API key and account status."@
    } else if status == 429 {
        "Too many requests to Deepgram. You've hit the API rate limit. Please wait and try again."@
    } else if status == 500 || status == 502 || status == 503 || status == 504 {
        "Deepgram API server is experiencing issues. Please try again later."@
    } else {
        "Deepgram API error (status "@ + decimal(status as nat) + " "@ + reason + "): "@
            + body_text(body)
    }
}

/// The error that a reply with the given status is reported as.
pub open spec fn spec_status_error(
    status: u16,
    reason: Seq<char>,
    body: Option<Seq<char>>,
) -> TranscribeErrorView {
    TranscribeErrorView::ProviderRequest {
        status,
        message: spec_status_message(status, reason, body),
    }
}

/// Reports a reply whose status is not a success. `reason` is the phrase
/// that goes with the status, `body` the reply's body where it could be
/// read.
pub fn status_error(status: u16, reason: &str, body: &Option<String>) -> (error: TranscribeError)
    ensures
        error@ == spec_status_error(status, reason@, text_of(*body)),
{
    let message = if status == 401 {
        String::from_str(
            "Deepgram API key is invalid or expired. Please run 'ostt auth' to update your API key.",
        )
    } else if status == 403 {
        String::from_str(
            "You don't have permission to use Deepgram's API. Check your API key and account status.",
        )
    } else if status == 429 {
        String::from_str(
            "Too many requests to Deepgram. You've hit the API rate limit. Please wait and try again.",
        )
    } else if status == 500 || status == 502 || status == 503 || status == 504 {
        String::from_str("Deepgram API server is experiencing issues. Please try again later.")
    } else {
        let mut message = String::from_str("Deepgram API error (status ");
        let code = decimal_text(status);
        message.append(code.as_str());
        message.append(" ");
        message.append(reason);
        message.append("): ");
        match body {
            Some(text) => message.append(text.as_str()),
            None => message.append("Unknown error"),
        }
        message
    };
    TranscribeError::ProviderRequest { status, message }
}

/// The error of a reply that is no JSON of the expected shape, for the
/// cause given.
pub open spec fn spec_decode_error(cause: Seq<char>) -> TranscribeErrorView {
    TranscribeErrorView::ResponseParse("Failed to parse Deepgram response: "@ + cause)
}

/// Reports a reply that could not be decoded.
pub fn decode_error(cause: &str) -> (error: TranscribeError)
    ensures
        error@ == spec_decode_error(cause@),
{
    TranscribeError::ResponseParse(joined("Failed to parse Deepgram response: ", cause))
}

/// One reading of a channel.
#[derive(Debug, Clone, PartialEq, Eq)]
pub struct DeepgramAlternative {
    pub transcript: String,
}

/// One audio channel with its readings, best first.
#[derive(Debug, Clone, PartialEq, Eq)]
pub struct DeepgramChannel {
    pub alternatives: Vec<DeepgramAlternative>,
}

/// The results of a reply.
#[derive(Debug, Clone, PartialEq, Eq)]
pub struct DeepgramResults {
    pub channels: Vec<DeepgramChannel>,
}

/// A decoded reply of the service.
#[derive(Debug, Clone, PartialEq, Eq)]
pub struct DeepgramResponse {
    pub results: DeepgramResults,
}

impl View for DeepgramChannel {
    type V = Seq<Seq<char>>;

    /// The transcripts of the channel's alternatives.
    open spec fn view(&self) -> Seq<Seq<char>> {
        Seq::new(self.alternatives@.len(), |i: int| self.alternatives@[i].transcript@)
    }
}

impl View for DeepgramResponse {
    type V = Seq<Seq<Seq<char>>>;

    /// The transcripts of the reply, by channel and alternative.
    open spec fn view(&self) -> Seq<Seq<Seq<char>>> {
        Seq::new(self.results.channels@.len(), |i: int| self.results.channels@[i]@)
    }
}

/// The transcript of a reply: the first alternative of the first channel.
pub open spec fn first_transcript(channels: Seq<Seq<Seq<char>>>) -> Option<Seq<char>> {
    if channels.len() > 0 && channels[0].len() > 0 {
        Some(channels[0][0])
    } else {
        None
    }
}

/// The view of the outcome of a transcription call.
pub open spec fn outcome_view(outcome: Result<String, TranscribeError>) -> Result<
    Seq<char>,
    TranscribeErrorView,
> {
    match outcome {
        Ok(transcript) => Ok(transcript@),
        Err(error) => Err(error@),
    }
}

/// The outcome that a decoded reply stands for.
pub open spec fn spec_extract_transcript(channels: Seq<Seq<Seq<char>>>) -> Result<
    Seq<char>,
    TranscribeErrorView,
> {
    match first_transcript(channels) {
        Some(transcript) => Ok(transcript),
        None => Err(
            TranscribeErrorView::ResponseParse("No transcript found in Deepgram response"@),
        ),
    }
}

/// Takes the transcript from a decoded reply: the first alternative of the
/// first channel. A reply without channels, or whose first channel has no
/// alternative, is an error, never an empty transcript.
pub fn extract_transcript(response: &DeepgramResponse) -> (outcome: Result<
    String,
    TranscribeError,
>)
    ensures
        outcome_view(outcome) == spec_extract_transcript(response@),
{
    if response.results.channels.len() > 0 {
        let channel = &response.results.channels[0];
        if channel.alternatives.len() > 0 {
            let transcript = channel.alternatives[0].transcript.clone();
            assert(response@[0] == channel@);
            assert(channel@[0] == transcript@);
            return Ok(transcript);
        }
        assert(response@[0] == channel@);
    }
    Err(TranscribeError::ResponseParse(String::from_str("No transcript found in Deepgram response")))
}

/// The request of one transcription call: a POST to `url` with the two
/// headers and the audio as its body.
#[derive(Debug, Clone, PartialEq, Eq)]
pub struct DeepgramRequest {
    /// The address, query included.
    pub url: String,
    /// The value of the `Authorization` header.
    pub authorization: String,
    /// The value of the `Content-Type` header.
    pub content_type: String,
    /// The audio, byte for byte.
    pub body: Vec<u8>,
}

/// Mathematical model of [`DeepgramRequest`].
pub struct DeepgramRequestView {
    pub url: Seq<char>,
    pub authorization: Seq<char>,
    pub content_type: Seq<char>,
    pub body: Seq<u8>,
}

impl View for DeepgramRequest {
    type V = DeepgramRequestView;

    open spec fn view(&self) -> DeepgramRequestView {
        DeepgramRequestView {
            url: self.url@,
            authorization: self.authorization@,
            content_type: self.content_type@,
            body: self.body@,
        }
    }
}

/// The request that `config` asks for, for the audio given.
pub open spec fn spec_build_request(
    config: TranscriptionConfigView,
    audio: Seq<u8>,
) -> DeepgramRequestView {
    DeepgramRequestView {
        url: spec_request_url(config),
        authorization: "Token "@ + config.api_key,
        content_type: "audio/mpeg"@,
        body: audio,
    }
}

/// Builds the request of a transcription call: the address with its query,
/// the key as a `Token`, the content type `audio/mpeg` and the audio
/// unchanged as the body.
pub fn build_request(config: &TranscriptionConfig, audio: Vec<u8>) -> (request: DeepgramRequest)
    ensures
        request@ == spec_build_request(config@, audio@),
{
    DeepgramRequest {
        url: request_url(config),
        authorization: joined("Token ", config.api_key.as_str()),
        content_type: String::from_str("audio/mpeg"),
        body: audio,
    }
}

/// What the caller reports back after each piece of outside work.
#[derive(Debug, PartialEq, Eq)]
pub enum Event {
    /// The audio file was read, or could not be, for the cause given.
    AudioRead(Result<Vec<u8>, String>),
    /// The request could not be sent.
    SendFailed(SendFailure),
    /// The service replied with this status.
    Replied { status: u16 },
    /// The body of a reply without success was read, or could not be.
    ErrorBodyRead { status: u16, reason: String, body: Option<String> },
    /// The body of a successful reply was decoded, or could not be, for the
    /// cause given.
    BodyDecoded(Result<DeepgramResponse, String>),
}

/// Mathematical model of [`Event`].
pub enum EventView {
    AudioRead(Result<Seq<u8>, Seq<char>>),
    SendFailed(SendFailureView),
    Replied { status: u16 },
    ErrorBodyRead { status: u16, reason: Seq<char>, body: Option<Seq<char>> },
    BodyDecoded(Result<Seq<Seq<Seq<char>>>, Seq<char>>),
}

impl View for Event {
    type V = EventView;

    open spec fn view(&self) -> EventView {
        match self {
            Event::AudioRead(Ok(audio)) => EventView::AudioRead(Ok(audio@)),
            Event::AudioRead(Err(cause)) => EventView::AudioRead(Err(cause@)),
            Event::SendFailed(failure) => EventView::SendFailed(failure@),
            Event::Replied { status } => EventView::Replied { status: *status },
            Event::ErrorBodyRead { status, reason, body } => EventView::ErrorBodyRead {
                status: *status,
                reason: reason@,
                body: text_of(*body),
            },
            Event::BodyDecoded(Ok(response)) => EventView::BodyDecoded(Ok(response@)),
            Event::BodyDecoded(Err(cause)) => EventView::BodyDecoded(Err(cause@)),
        }
    }
}

/// What the caller is to do next.
#[derive(Debug, PartialEq, Eq)]
pub enum Action {
    /// Send this request.
    Send(DeepgramRequest),
    /// Read the body of the reply as text.
    ReadErrorBody,
    /// Decode the body of the reply.
    DecodeBody,
    /// Stop: the call has this outcome.
    Finish(Result<String, TranscribeError>),
}

/// Mathematical model of [`Action`].
pub enum ActionView {
    Send(DeepgramRequestView),
    ReadErrorBody,
    DecodeBody,
    Finish(Result<Seq<char>, TranscribeErrorView>),
}

impl View for Action {
    type V = ActionView;

    open spec fn view(&self) -> ActionView {
        match self {
            Action::Send(request) => ActionView::Send(request@),
            Action::ReadErrorBody => ActionView::ReadErrorBody,
            Action::DecodeBody => ActionView::DecodeBody,
            Action::Finish(outcome) => ActionView::Finish(outcome_view(*outcome)),
        }
    }
}

/// The course of a transcription call. Audio that was read is sent; a
/// reply with a status of success has its body decoded, any other has its
/// body read as text; everything else ends the call: audio that could not
/// be read, a request that could not be sent, the body of a reply without
/// success, and a decoded body, which gives the transcript or an error.
/// Nothing is tried twice.
pub open spec fn spec_next_action(config: TranscriptionConfigView, event: EventView) -> ActionView {
    match event {
        EventView::AudioRead(Ok(audio)) => ActionView::Send(spec_build_request(config, audio)),
        EventView::AudioRead(Err(cause)) => ActionView::Finish(Err(spec_audio_read_error(cause))),
        EventView::SendFailed(failure) => ActionView::Finish(Err(spec_send_error(failure))),
        EventView::Replied { status } => if spec_is_success(status) {
            ActionView::DecodeBody
        } else {
            ActionView::ReadErrorBody
        },
        EventView::ErrorBodyRead { status, reason, body } => ActionView::Finish(
            Err(spec_status_error(status, reason, body)),
        ),
        EventView::BodyDecoded(Ok(channels)) => ActionView::Finish(
            spec_extract_transcript(channels),
        ),
        EventView::BodyDecoded(Err(cause)) => ActionView::Finish(Err(spec_decode_error(cause))),
    }
}

/// Decides what a transcription call does after `event`.
pub fn next_action(config: &TranscriptionConfig, event: Event) -> (action: Action)
    ensures
        action@ == spec_next_action(config@, event@),
{
    match event {
        Event::AudioRead(Ok(audio)) => Action::Send(build_request(config, audio)),
        Event::AudioRead(Err(cause)) => Action::Finish(Err(audio_read_error(cause.as_str()))),
        Event::SendFailed(failure) => Action::Finish(Err(send_error(&failure))),
        Event::Replied { status } => if is_success(status) {
            Action::DecodeBody
        } else {
            Action::ReadErrorBody
        },
        Event::ErrorBodyRead { status, reason, body } => Action::Finish(
            Err(status_error(status, reason.as_str(), &body)),
        ),
        Event::BodyDecoded(Ok(response)) => Action::Finish(extract_transcript(&response)),
        Event::BodyDecoded(Err(cause)) => Action::Finish(Err(decode_error(cause.as_str()))),
    }
}

} // verus!
