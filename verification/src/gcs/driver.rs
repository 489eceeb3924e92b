use vstd::prelude::*;
use vstd::utf8::encode_utf8;

use crate::gcs::await_time::{configured_await_time, AwaitTime};
use crate::gcs::types::{
    AudioChannelCount, AudioEncoding, MaxAlternatives, RecognitionConfig, SampleRateHertz,
    StreamingRecognitionConfig, StreamingRecognitionResult, StreamingRecognizeRequest,
    StreamingRecognizeResponse, StreamingRequest,
};
use crate::google::{bearer, is_metadata_text, oauth_key};
use crate::handler::CHUNK_SIZE;
use crate::recognition::{
    SpeechRecognitionRequest, SpeechRecognitionResponse, SpeechRecognitionServiceConfig,
};
use crate::server::IoError;
use crate::service::{FromConfig, Service};

verus! {

/// Domain name of the service.
pub const DOMAIN_NAME: &'static str = "speech.googleapis.com";

/// Address of the service.
pub const ENDPOINT: &'static str = "https://speech.googleapis.com";

/// Errors of speech recognition.
#[derive(Debug)]
pub enum CloudSpeechError {
    /// There are no settings of the service.
    NoSuitableConfigFound,

    /// The service cannot be connected to.
    TransportError(String),

    /// The credentials cannot be read.
    IoError(IoError),

    /// The access token cannot be sent.
    InvalidOauthKey,

    /// There is no access token to be had.
    AuthenticationError(String),

    /// The service has answered with an error.
    CallError(String),

    /// Nobody takes in the transcription.
    FlumeError(String),
}

impl CloudSpeechError {
    /// Text of the error.
    pub open spec fn text(self) -> Seq<char> {
        match self {
            CloudSpeechError::NoSuitableConfigFound =>
                "Application config doesn't contain GCS settings"@,
            CloudSpeechError::TransportError(reason) => "Transport error: "@ + reason@,
            CloudSpeechError::IoError(error) => "IO error: "@ + error.description@,
            CloudSpeechError::InvalidOauthKey =>
                "Invalid OAuth key provided: failed to parse metadata value"@,
            CloudSpeechError::AuthenticationError(reason) => "Authentication error: "@ + reason@,
            CloudSpeechError::CallError(reason) => "Unable to call gRPC API: "@ + reason@,
            CloudSpeechError::FlumeError(reason) =>
                "Unable to send transcription to background service: "@ + reason@,
        }
    }

    /// Text of the error.
    pub fn describe(&self) -> (text: String)
        ensures
            text@ == self.text(),
    {
        match self {
            CloudSpeechError::NoSuitableConfigFound =>
                "Application config doesn't contain GCS settings".to_owned(),
            CloudSpeechError::TransportError(reason) => "Transport error: ".to_owned().concat(
                reason.as_str(),
            ),
            CloudSpeechError::IoError(error) => "IO error: ".to_owned().concat(
                error.description.as_str(),
            ),
            CloudSpeechError::InvalidOauthKey =>
                "Invalid OAuth key provided: failed to parse metadata value".to_owned(),
            CloudSpeechError::AuthenticationError(reason) => "Authentication error: ".to_owned().concat(
                reason.as_str(),
            ),
            CloudSpeechError::CallError(reason) => "Unable to call gRPC API: ".to_owned().concat(
                reason.as_str(),
            ),
            CloudSpeechError::FlumeError(reason) =>
                "Unable to send transcription to background service: ".to_owned().concat(
                    reason.as_str(),
                ),
        }
    }
}

/// Speech recognition of one call by Google Cloud Speech-to-Text.
#[derive(Debug)]
pub struct GoogleCloudSpeech {
    /// Language, that is being recognized.
    ///
    /// Consult <https://cloud.google.com/speech-to-text/docs/languages> for more info
    pub language: String,

    /// Text punctuation guessing toggle
    pub punctuation: bool,

    /// Profanity filter toggle
    pub profanity_filter: bool,

    /// Max await time between each audio message.
    ///
    /// Check [`AwaitTime`] for details.
    pub max_time: AwaitTime,

    /// OAuth2 access token.
    ///
    /// Usually generated from service credentials file.
    pub token: String,
}

/// What a call of the service needs.
#[derive(Debug)]
pub struct SpeechCall {
    /// Value of the `authorization` key.
    pub oauth_key: Vec<u8>,

    /// First message to the service.
    pub opening: StreamingRecognizeRequest,

    /// How long to wait for audio, until silence is sent in its place.
    pub max_time: AwaitTime,
}

/// What there is to send to the service.
#[derive(Debug)]
pub enum AudioEvent {
    /// Audio of the call.
    Audio(SpeechRecognitionRequest),

    /// There was none for too long.
    Elapsed,
}

/// A config of the recognizer for the telephone audio of AudioSocket, in a language.
pub open spec fn is_telephone_config(
    config: RecognitionConfig,
    language: Seq<char>,
    punctuation: bool,
    profanity_filter: bool,
) -> bool {
    &&& config.encoding == AudioEncoding::Linear16
    &&& config.sample_rate_hertz.value() == 8000
    &&& config.audio_channel_count.value() == 1
    &&& !config.enable_separate_recognition_per_channel
    &&& config.language_code@ == language
    &&& config.max_alternatives.value() == 1
    &&& config.profanity_filter == profanity_filter
    &&& config.speech_contexts@.len() == 0
    &&& !config.enable_word_time_offsets
    &&& config.enable_automatic_punctuation == punctuation
    &&& config.model@ == "phone_call"@
    &&& !config.use_enhanced
}

/// The first message of a service to the recognizer.
pub open spec fn is_opening(service: GoogleCloudSpeech, request: StreamingRecognizeRequest) -> bool {
    &&& request.streaming_request matches StreamingRequest::StreamingConfig(streaming)
    &&& is_telephone_config(
        streaming.config,
        service.language@,
        service.punctuation,
        service.profanity_filter,
    )
    &&& !streaming.single_utterance
    &&& streaming.interim_results
}

/// A message with the audio of an event, or with one chunk of silence if there is none.
pub open spec fn is_audio_of(event: AudioEvent, request: StreamingRecognizeRequest) -> bool {
    request.streaming_request matches StreamingRequest::AudioContent(audio) && audio@
        == match event {
        AudioEvent::Audio(request) => request.audio@,
        AudioEvent::Elapsed => Seq::new(CHUNK_SIZE as nat, |i: int| 0u8),
    }
}

impl GoogleCloudSpeech {
    /// Create new [`GoogleCloudSpeech`].
    pub fn new(
        language: String,
        punctuation: bool,
        profanity_filter: bool,
        max_time: AwaitTime,
        token: String,
    ) -> (service: Self)
        ensures
            service == (GoogleCloudSpeech {
                language,
                punctuation,
                profanity_filter,
                max_time,
                token,
            }),
    {
        GoogleCloudSpeech { language, punctuation, profanity_filter, max_time, token }
    }

    /// Prepare the call of the service. The first message tells it how to process the audio.
    pub fn stream(self) -> (result: Result<SpeechCall, CloudSpeechError>)
        ensures
            match result {
                Ok(call) => {
                    &&& is_metadata_text(bearer(self.token@))
                    &&& call.oauth_key@ == encode_utf8(bearer(self.token@))
                    &&& is_opening(self, call.opening)
                    &&& call.max_time == self.max_time
                },
                Err(error) => {
                    &&& !is_metadata_text(bearer(self.token@))
                    &&& error == CloudSpeechError::InvalidOauthKey
                },
            },
    {
        let oauth_key = match oauth_key(self.token.as_str()) {
            Some(key) => key,
            None => return Err(CloudSpeechError::InvalidOauthKey),
        };
        let config = RecognitionConfig {
            encoding: AudioEncoding::Linear16,
            sample_rate_hertz: SampleRateHertz::new(8000).unwrap(),
            audio_channel_count: AudioChannelCount::new(1, AudioEncoding::Linear16).unwrap(),
            enable_separate_recognition_per_channel: false,
            language_code: self.language,
            max_alternatives: MaxAlternatives::new(1).unwrap(),
            profanity_filter: self.profanity_filter,
            speech_contexts: Vec::new(),
            enable_word_time_offsets: false,
            enable_automatic_punctuation: self.punctuation,
            model: "phone_call".to_owned(),
            use_enhanced: false,
        };
        let streaming = StreamingRecognitionConfig {
            config,
            single_utterance: false,
            interim_results: true,
        };
        let opening = StreamingRecognizeRequest {
            streaming_request: StreamingRequest::StreamingConfig(streaming),
        };
        Ok(SpeechCall { oauth_key, opening, max_time: self.max_time })
    }

    /// Make the next message to the service, after the first one.
    ///
    /// If there is no audio for too long, one chunk of silence is sent in its place.
    pub fn audio_request(event: AudioEvent) -> (request: StreamingRecognizeRequest)
        ensures
            is_audio_of(event, request),
    {
        let audio = match event {
            AudioEvent::Audio(request) => request.audio,
            AudioEvent::Elapsed => {
                let mut silence: Vec<u8> = Vec::new();
                while silence.len() < CHUNK_SIZE
                    invariant
                        silence@.len() <= CHUNK_SIZE,
                        forall|i: int| 0 <= i < silence@.len() ==> silence@[i] == 0u8,
                    decreases CHUNK_SIZE - silence@.len(),
                {
                    silence.push(0);
                }
                assert(silence@ =~= Seq::new(CHUNK_SIZE as nat, |i: int| 0u8));
                silence
            },
        };
        StreamingRecognizeRequest { streaming_request: StreamingRequest::AudioContent(audio) }
    }

    /// Take the transcription out of an answer of the service, if there is any.
    ///
    /// That is the last alternative of the first final result. Interim results are ignored.
    pub fn transcription(response: StreamingRecognizeResponse) -> (result: Option<
        SpeechRecognitionResponse,
    >)
        ensures
            is_transcription_of(response, result),
    {
        let mut results = response.results;
        let mut index: usize = 0;
        while index < results.len()
            invariant
                results@ == response.results@,
                index <= results@.len(),
                forall|i: int| 0 <= i < index ==> !(#[trigger] results@[i]).is_final,
            decreases results@.len() - index,
        {
            if results[index].is_final {
                assert(is_first_final(response.results@, index as int));
                let mut result = results.swap_remove(index);
                return match result.alternatives.pop() {
                    Some(alternative) => Some(
                        SpeechRecognitionResponse { transcription: alternative.transcript },
                    ),
                    None => None,
                };
            }
            index = index + 1;
        }
        None
    }

    /// Take in an answer of the service, or the reason why it has failed.
    ///
    /// An answer without a transcription gives no response.
    pub fn answer(answer: Result<StreamingRecognizeResponse, String>) -> (result: Result<
        Option<SpeechRecognitionResponse>,
        CloudSpeechError,
    >)
        ensures
            match answer {
                Ok(response) => result matches Ok(recognized) && is_transcription_of(
                    response,
                    recognized,
                ),
                Err(reason) => result == Err::<Option<SpeechRecognitionResponse>, CloudSpeechError>(
                    CloudSpeechError::CallError(reason),
                ),
            },
    {
        match answer {
            Ok(response) => Ok(GoogleCloudSpeech::transcription(response)),
            Err(reason) => Err(CloudSpeechError::CallError(reason)),
        }
    }
}

/// The transcription of an answer is the last alternative of its first final result, if there is
/// such a result and it has any alternative.
pub open spec fn is_transcription_of(
    response: StreamingRecognizeResponse,
    result: Option<SpeechRecognitionResponse>,
) -> bool {
    match result {
        Some(recognized) => exists|index: int| #[trigger]
            is_first_final(response.results@, index)
                && response.results@[index].alternatives@.len() > 0 && recognized.transcription@
                == response.results@[index].alternatives@.last().transcript@,
        None => forall|index: int| #[trigger]
            is_first_final(response.results@, index)
                ==> response.results@[index].alternatives@.len() == 0,
    }
}

/// The first final result is at this index.
pub open spec fn is_first_final(results: Seq<StreamingRecognitionResult>, index: int) -> bool {
    &&& 0 <= index < results.len()
    &&& results[index].is_final
    &&& forall|i: int| 0 <= i < index ==> !(#[trigger] results[i]).is_final
}

impl Service for GoogleCloudSpeech {
    type Input = SpeechRecognitionRequest;

    type Output = SpeechRecognitionResponse;

    type Error = CloudSpeechError;
}

impl<'c> FromConfig<'c> for GoogleCloudSpeech {
    type Config = SpeechRecognitionServiceConfig<'c>;

    type Error = CloudSpeechError;

    fn credentials<'a>(config: &'a SpeechRecognitionServiceConfig<'c>) -> (path: Result<
        &'a String,
        CloudSpeechError,
    >)
        ensures
            match config.application_config@.gcs_config {
                Some(settings) => {
                    &&& path matches Ok(path)
                    &&& path@ == settings.service_account_path
                },
                None => path == Err::<&'a String, CloudSpeechError>(
                    CloudSpeechError::NoSuitableConfigFound,
                ),
            },
    {
        match config.application_config.gcs_config() {
            Some(settings) => Ok(&settings.service_account_path),
            None => Err(CloudSpeechError::NoSuitableConfigFound),
        }
    }

    fn from_config(config: SpeechRecognitionServiceConfig<'c>, token: String) -> (service: Result<
        Self,
        CloudSpeechError,
    >)
        ensures
            match config.application_config@.gcs_config {
                Some(settings) => {
                    &&& service matches Ok(service)
                    &&& service.language@ == config.recognition_config@.language
                    &&& service.punctuation == config.recognition_config@.punctuation
                    &&& service.profanity_filter == config.recognition_config@.profanity_filter
                    &&& service.max_time.duration() == configured_await_time(
                        settings.max_await_time,
                    )
                    &&& service.token == token
                },
                None => service == Err::<Self, CloudSpeechError>(
                    CloudSpeechError::NoSuitableConfigFound,
                ),
            },
    {
        match config.application_config.gcs_config() {
            Some(settings) => {
                let max_time = match settings.max_await_time {
                    Some(secs) => match AwaitTime::new(secs) {
                        Some(time) => time,
                        None => AwaitTime::default(),
                    },
                    None => AwaitTime::default(),
                };
                let recognition_config = config.recognition_config;
                Ok(
                    GoogleCloudSpeech::new(
                        recognition_config.language,
                        recognition_config.punctuation,
                        recognition_config.profanity_filter,
                        max_time,
                        token,
                    ),
                )
            },
            None => Err(CloudSpeechError::NoSuitableConfigFound),
        }
    }
}

/// The messages of a service keep to what the recognizer asks for, whatever audio there is and
/// however long it takes to come: the first one holds the config and no audio, all others hold audio
/// and no config.
pub proof fn config_comes_first_and_audio_follows(
    service: GoogleCloudSpeech,
    opening: StreamingRecognizeRequest,
    events: Seq<AudioEvent>,
    following: Seq<StreamingRecognizeRequest>,
    index: int,
)
    requires
        is_opening(service, opening),
        following.len() == events.len(),
        forall|i: int| 0 <= i < events.len() ==> is_audio_of(events[i], #[trigger] following[i]),
        0 <= index <= events.len(),
    ensures
        (seq![opening] + following)[index].streaming_request is StreamingConfig <==> index == 0,
        (seq![opening] + following)[index].streaming_request is AudioContent <==> index > 0,
{
    if index > 0 {
        assert((seq![opening] + following)[index] == following[index - 1]);
        assert(is_audio_of(events[index - 1], following[index - 1]));
    }
}

} // verus!
