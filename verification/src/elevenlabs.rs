//! Transcription of one finished recording over a WebSocket of its own.

use vstd::prelude::*;
use vstd::string::*;

use crate::elevenlabs_streaming::{
    audio_chunk, encodable, AudioChunkMessage, AudioFormat, ChunkView,
};
use crate::stream_reader::{
    classify, describe_message, kind_of, message_debug_text, optional_text, MessageKind,
    TranscriptMessage,
};
use crate::text::{is_blank, is_blank_str, str_eq, trim, trimmed};
use crate::wav::{extract_pcm_from_wav, extracted_pcm, WavError};

verus! {

/// One recording to transcribe.
#[derive(Clone, Debug)]
pub struct ElevenLabsTranscriptionRequest {
    pub api_key: String,
    pub audio_wav: Vec<u8>,
    pub language: String,
}

/// Why a recording was not transcribed.
pub enum OneShotError {
    /// The API key is blank.
    MissingKey,
    /// The recording could not be read.
    Wav(WavError),
    /// The recording is too long to encode on this machine.
    AudioTooLarge,
    /// A message from the server did not parse.
    Unparsed,
    /// The transport failed.
    Transport(String),
    /// The server reported an error; this is the message as it came.
    Api(String),
}

/// A `OneShotError` as plain values.
pub enum OneShotErrorView {
    MissingKey,
    Wav(WavError),
    AudioTooLarge,
    Unparsed,
    Transport(Seq<char>),
    Api(Seq<char>),
}

impl View for OneShotError {
    type V = OneShotErrorView;

    open spec fn view(&self) -> OneShotErrorView {
        match self {
            OneShotError::MissingKey => OneShotErrorView::MissingKey,
            OneShotError::Wav(e) => OneShotErrorView::Wav(*e),
            OneShotError::AudioTooLarge => OneShotErrorView::AudioTooLarge,
            OneShotError::Unparsed => OneShotErrorView::Unparsed,
            OneShotError::Transport(m) => OneShotErrorView::Transport(m@),
            OneShotError::Api(m) => OneShotErrorView::Api(m@),
        }
    }
}

impl OneShotErrorView {
    pub open spec fn text(self) -> Seq<char> {
        match self {
            OneShotErrorView::MissingKey => "ElevenLabs API key is missing"@,
            OneShotErrorView::Wav(e) => e.text(),
            OneShotErrorView::AudioTooLarge => "Recording is too large"@,
            OneShotErrorView::Unparsed => "Failed to parse transcript message"@,
            OneShotErrorView::Transport(m) => "Error receiving WebSocket message: "@ + m,
            OneShotErrorView::Api(m) => "ElevenLabs API error: "@ + m,
        }
    }
}

impl OneShotError {
    /// The sentence that describes the error.
    pub fn message(&self) -> (m: String)
        ensures
            m@ == self@.text(),
    {
        match self {
            OneShotError::MissingKey => "ElevenLabs API key is missing".to_owned(),
            OneShotError::Wav(e) => e.message().to_owned(),
            OneShotError::AudioTooLarge => "Recording is too large".to_owned(),
            OneShotError::Unparsed => "Failed to parse transcript message".to_owned(),
            OneShotError::Transport(m) => {
                let mut out = "Error receiving WebSocket message: ".to_owned();
                out.append(m.as_str());
                out
            },
            OneShotError::Api(m) => {
                let mut out = "ElevenLabs API error: ".to_owned();
                out.append(m.as_str());
                out
            },
        }
    }
}

/// What the transport needs to transcribe one recording.
pub struct OneShotRequest {
    pub url: String,
    pub api_key: String,
    pub message: AudioChunkMessage,
}

/// A `OneShotRequest` as plain values.
pub struct OneShotRequestView {
    pub url: Seq<char>,
    pub api_key: Seq<char>,
    pub message: ChunkView,
}

impl View for OneShotRequest {
    type V = OneShotRequestView;

    open spec fn view(&self) -> OneShotRequestView {
        OneShotRequestView { url: self.url@, api_key: self.api_key@, message: self.message@ }
    }
}

/// The URL for one recording: the server detects the end of speech itself.
pub open spec fn one_shot_url(format: AudioFormat) -> Seq<char> {
    "wss://api.elevenlabs.io/v1/speech-to-text/realtime?model_id=scribe_v2_realtime&language_code=ru&audio_format="@
        + format.tag() + "&commit_strategy=vad"@
}

/// The request for audio that is PCM16LE already: the whole audio in one
/// chunk with the commit flag, in the format of its sample rate.
pub open spec fn pcm_request(api_key: Seq<char>, pcm: Seq<u8>, sample_rate: u32) -> Result<
    OneShotRequestView,
    OneShotErrorView,
> {
    if is_blank(api_key) {
        Err(OneShotErrorView::MissingKey)
    } else if !encodable(pcm) {
        Err(OneShotErrorView::AudioTooLarge)
    } else {
        Ok(
            OneShotRequestView {
                url: one_shot_url(AudioFormat::for_rate(sample_rate)),
                api_key,
                message: audio_chunk(pcm, sample_rate, true),
            },
        )
    }
}

/// The request for a recording: what `pcm_request` makes of the PCM read
/// from it.
pub open spec fn one_shot_request(api_key: Seq<char>, wav: Seq<u8>) -> Result<
    OneShotRequestView,
    OneShotErrorView,
> {
    if is_blank(api_key) {
        Err(OneShotErrorView::MissingKey)
    } else {
        match extracted_pcm(wav) {
            Err(e) => Err(OneShotErrorView::Wav(e)),
            Ok((pcm, sample_rate)) => pcm_request(api_key, pcm, sample_rate),
        }
    }
}

/// The result of `prepare` as plain values.
pub open spec fn request_view(result: Result<OneShotRequest, OneShotError>) -> Result<
    OneShotRequestView,
    OneShotErrorView,
> {
    match result {
        Ok(r) => Ok(r@),
        Err(e) => Err(e@),
    }
}

/// What one inbound item means for the transcription.
pub enum OneShotStep {
    /// Keep reading.
    Continue,
    /// The transcription is over with this text.
    Done(String),
    /// The transcription failed.
    Fail(OneShotError),
}

/// A `OneShotStep` as plain values.
pub enum OneShotStepView {
    Continue,
    Done(Seq<char>),
    Fail(OneShotErrorView),
}

impl View for OneShotStep {
    type V = OneShotStepView;

    open spec fn view(&self) -> OneShotStepView {
        match self {
            OneShotStep::Continue => OneShotStepView::Continue,
            OneShotStep::Done(text) => OneShotStepView::Done(text@),
            OneShotStep::Fail(e) => OneShotStepView::Fail(e@),
        }
    }
}

/// What the transport handed over while a recording is transcribed.
pub enum OneShotInbound {
    /// A text frame that parsed as a message.
    Message(TranscriptMessage),
    /// A text frame that did not parse.
    Unparsed,
    /// A close frame, or the end of the stream.
    Closed,
    /// A ping, a pong or a binary frame.
    Ignored,
    /// The transport failed with this description.
    Failed(String),
}

/// The step for a message: the first committed transcript ends the work
/// with its text, trimmed; an error ends it in failure, except for input
/// errors, which this path passes over like any unknown message.
pub open spec fn message_step(
    message_type: Seq<char>,
    text: Seq<char>,
    session_id: Option<Seq<char>>,
) -> OneShotStepView {
    if kind_of(message_type) == MessageKind::CommittedTranscript {
        OneShotStepView::Done(trimmed(text))
    } else if kind_of(message_type) == MessageKind::ServerError && message_type != "input_error"@ {
        OneShotStepView::Fail(
            OneShotErrorView::Api(message_debug_text(message_type, text, session_id)),
        )
    } else {
        OneShotStepView::Continue
    }
}

/// The client for single recordings.
#[derive(Clone)]
pub struct ElevenLabsClient;

impl ElevenLabsClient {
    pub fn new() -> (client: Result<Self, OneShotError>)
        ensures
            client is Ok,
    {
        Ok(ElevenLabsClient)
    }

    /// Prepares the transcription of audio that is PCM16LE already.
    pub fn prepare_pcm(&self, api_key: &str, pcm: &Vec<u8>, sample_rate: u32) -> (result: Result<
        OneShotRequest,
        OneShotError,
    >)
        ensures
            request_view(result) == pcm_request(api_key@, pcm@, sample_rate),
    {
        if is_blank_str(api_key) {
            return Err(OneShotError::MissingKey);
        }
        let message = match AudioChunkMessage::encode(pcm, sample_rate, true) {
            Some(message) => message,
            None => {
                return Err(OneShotError::AudioTooLarge);
            },
        };
        let format = AudioFormat::from_sample_rate(sample_rate);
        let mut url =
            "wss://api.elevenlabs.io/v1/speech-to-text/realtime?model_id=scribe_v2_realtime&language_code=ru&audio_format=".to_owned();
        url.append(format.as_str());
        url.append("&commit_strategy=vad");
        Ok(
            OneShotRequest {
                url,
                api_key: api_key.to_owned(),
                message,
            },
        )
    }

    /// Prepares the transcription of one recording.
    pub fn prepare(&self, job: &ElevenLabsTranscriptionRequest) -> (result: Result<
        OneShotRequest,
        OneShotError,
    >)
        ensures
            request_view(result) == one_shot_request(job.api_key@, job.audio_wav@),
    {
        if is_blank_str(job.api_key.as_str()) {
            return Err(OneShotError::MissingKey);
        }
        match extract_pcm_from_wav(&job.audio_wav) {
            Ok((pcm, sample_rate)) => self.prepare_pcm(job.api_key.as_str(), &pcm, sample_rate),
            Err(e) => Err(OneShotError::Wav(e)),
        }
    }

    /// One turn of reading the server's answers.
    pub fn on_inbound(&self, inbound: OneShotInbound) -> (step: OneShotStep)
        ensures
            step@ == match inbound {
                OneShotInbound::Message(m) => message_step(
                    m.message_type@,
                    m.text@,
                    optional_text(m.session_id),
                ),
                OneShotInbound::Unparsed => OneShotStepView::Fail(OneShotErrorView::Unparsed),
                OneShotInbound::Closed => OneShotStepView::Done(Seq::<char>::empty()),
                OneShotInbound::Ignored => OneShotStepView::Continue,
                OneShotInbound::Failed(e) => OneShotStepView::Fail(
                    OneShotErrorView::Transport(e@),
                ),
            },
    {
        match inbound {
            OneShotInbound::Message(message) => {
                match classify(message.message_type.as_str()) {
                    MessageKind::CommittedTranscript => OneShotStep::Done(
                        trim(message.text.as_str()),
                    ),
                    MessageKind::ServerError => {
                        if str_eq(message.message_type.as_str(), "input_error") {
                            OneShotStep::Continue
                        } else {
                            OneShotStep::Fail(OneShotError::Api(describe_message(&message)))
                        }
                    },
                    _ => OneShotStep::Continue,
                }
            },
            OneShotInbound::Unparsed => OneShotStep::Fail(OneShotError::Unparsed),
            OneShotInbound::Closed => OneShotStep::Done(String::new()),
            OneShotInbound::Ignored => OneShotStep::Continue,
            OneShotInbound::Failed(e) => OneShotStep::Fail(OneShotError::Transport(e)),
        }
    }
}

} // verus!
