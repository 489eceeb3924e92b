use vstd::prelude::*;
use vstd::utf8::encode_utf8;

use crate::config::Config;
use crate::gctts::types::{
    AudioConfig, AudioEncoding, SsmlVoiceGender, SynthesizeSpeechRequest, VoiceSelectionParams,
};
use crate::google::{bearer, is_metadata_text, oauth_key};
use crate::server::IoError;
use crate::service::{FromConfig, Service};
use crate::synthesis::{
    NumberBits, SpeechSynthesisRequest, SpeechSynthesisRequestView, SpeechSynthesisResponse,
    SynthesisVoiceGender,
};

verus! {

/// Domain name of the service.
pub const DOMAIN_NAME: &'static str = "texttospeech.googleapis.com";

/// Address of the service.
pub const ENDPOINT: &'static str = "https://texttospeech.googleapis.com";

/// Bits of the number zero.
pub const ZERO_BITS: u64 = 0;

/// Bits of the number one.
pub const ONE_BITS: u64 = 0x3FF0_0000_0000_0000;

/// Errors of speech synthesis.
#[derive(Debug)]
pub enum CloudTextToSpeechError {
    /// There are no settings of the service.
    NoSuitableConfigFound,

    /// The service cannot be connected to.
    TransportError(String),

    /// The access token cannot be sent.
    InvalidOauthKey,

    /// The credentials cannot be read.
    IoError(IoError),

    /// There is no access token to be had.
    AuthenticationError(String),

    /// The service has answered with an error.
    CallError(String),
}

impl CloudTextToSpeechError {
    /// Text of the error.
    pub open spec fn text(self) -> Seq<char> {
        match self {
            CloudTextToSpeechError::NoSuitableConfigFound =>
                "Application config doesn't contain GCTTS settings"@,
            CloudTextToSpeechError::TransportError(reason) => "Transport error: "@ + reason@,
            CloudTextToSpeechError::InvalidOauthKey =>
                "Invalid OAuth key provided: failed to parse metadata value"@,
            CloudTextToSpeechError::IoError(error) => "IO error: "@ + error.description@,
            CloudTextToSpeechError::AuthenticationError(reason) => "Authentication error: "@
                + reason@,
            CloudTextToSpeechError::CallError(reason) => "Unable to call gRPC API: "@ + reason@,
        }
    }

    /// Text of the error.
    pub fn describe(&self) -> (text: String)
        ensures
            text@ == self.text(),
    {
        match self {
            CloudTextToSpeechError::NoSuitableConfigFound =>
                "Application config doesn't contain GCTTS settings".to_owned(),
            CloudTextToSpeechError::TransportError(reason) => "Transport error: ".to_owned().concat(
                reason.as_str(),
            ),
            CloudTextToSpeechError::InvalidOauthKey =>
                "Invalid OAuth key provided: failed to parse metadata value".to_owned(),
            CloudTextToSpeechError::IoError(error) => "IO error: ".to_owned().concat(
                error.description.as_str(),
            ),
            CloudTextToSpeechError::AuthenticationError(reason) =>
                "Authentication error: ".to_owned().concat(reason.as_str()),
            CloudTextToSpeechError::CallError(reason) =>
                "Unable to call gRPC API: ".to_owned().concat(reason.as_str()),
        }
    }
}

/// Speech synthesis by Google Cloud Text-to-Speech.
#[derive(Debug)]
pub struct GoogleCloudTextToSpeech {
    /// OAuth2 access token.
    ///
    /// Usually generated from service credentials file.
    pub token: String,
}

/// The voice gender that stands for a preference. No preference is the same as any gender.
pub open spec fn preferred_gender(gender: Option<SynthesisVoiceGender>) -> SsmlVoiceGender {
    match gender {
        Some(SynthesisVoiceGender::Male) => SsmlVoiceGender::Male,
        Some(SynthesisVoiceGender::Female) => SsmlVoiceGender::Female,
        Some(SynthesisVoiceGender::Neutral) => SsmlVoiceGender::Neutral,
        Some(SynthesisVoiceGender::Any) => SsmlVoiceGender::Unspecified,
        None => SsmlVoiceGender::Unspecified,
    }
}

/// A number, or what stands in its place.
pub open spec fn number_or(number: Option<NumberBits>, bits: u64) -> NumberBits {
    match number {
        Some(number) => number,
        None => NumberBits { bits },
    }
}

/// The message that asks for the speech of a request, as telephone audio for AudioSocket.
pub open spec fn is_synthesis_of(
    message: SynthesizeSpeechRequest,
    request: SpeechSynthesisRequestView,
) -> bool {
    &&& message.ssml@ == request.ssml
    &&& message.voice.language_code@ == request.language_code
    &&& message.voice.name@ == ""@
    &&& message.voice.ssml_gender == preferred_gender(request.gender)
    &&& message.audio_config.audio_encoding == AudioEncoding::Linear16
    &&& message.audio_config.speaking_rate == number_or(request.speaking_rate, ONE_BITS)
    &&& message.audio_config.pitch == number_or(request.pitch, ZERO_BITS)
    &&& message.audio_config.volume_gain_db == NumberBits { bits: ZERO_BITS }
    &&& message.audio_config.sample_rate_hertz == 8000
    &&& message.audio_config.effects_profile_id@.len() == 1
    &&& message.audio_config.effects_profile_id@[0]@ == "telephony-class-application"@
}

impl GoogleCloudTextToSpeech {
    /// Create new [`GoogleCloudTextToSpeech`].
    pub fn new(token: String) -> (service: Self)
        ensures
            service.token == token,
    {
        GoogleCloudTextToSpeech { token }
    }

    /// Prepare the calls of the service: make the value of their `authorization` key.
    pub fn stream(self) -> (result: Result<Vec<u8>, CloudTextToSpeechError>)
        ensures
            match result {
                Ok(key) => {
                    &&& is_metadata_text(bearer(self.token@))
                    &&& key@ == encode_utf8(bearer(self.token@))
                },
                Err(error) => {
                    &&& !is_metadata_text(bearer(self.token@))
                    &&& error == CloudTextToSpeechError::InvalidOauthKey
                },
            },
    {
        match oauth_key(self.token.as_str()) {
            Some(key) => Ok(key),
            None => Err(CloudTextToSpeechError::InvalidOauthKey),
        }
    }
}

/// Make the message that asks for the speech of a request.
pub fn prepare_request(request: SpeechSynthesisRequest) -> (message: SynthesizeSpeechRequest)
    ensures
        is_synthesis_of(message, request@),
{
    let gender = match request.gender {
        Some(gender) => gender,
        None => SynthesisVoiceGender::Any,
    };
    let voice = VoiceSelectionParams {
        language_code: request.language_code,
        name: "".to_owned(),
        ssml_gender: SsmlVoiceGender::from(gender),
    };
    let mut effects_profile_id: Vec<String> = Vec::new();
    effects_profile_id.push("telephony-class-application".to_owned());
    let audio_config = AudioConfig {
        audio_encoding: AudioEncoding::Linear16,
        speaking_rate: request.speaking_rate.unwrap_or(NumberBits { bits: ONE_BITS }),
        pitch: request.pitch.unwrap_or(NumberBits { bits: ZERO_BITS }),
        volume_gain_db: NumberBits { bits: ZERO_BITS },
        sample_rate_hertz: 8000,
        effects_profile_id,
    };
    SynthesizeSpeechRequest { ssml: request.ssml, voice, audio_config }
}

/// Make the result of a request out of the answer of the service: the audio goes to the handler
/// that has asked for it.
pub fn prepare_response(id: u128, answer: Result<Vec<u8>, String>) -> (response: Result<
    SpeechSynthesisResponse,
    CloudTextToSpeechError,
>)
    ensures
        response == match answer {
            Ok(audio) => Ok(SpeechSynthesisResponse { id, audio }),
            Err(reason) => Err(CloudTextToSpeechError::CallError(reason)),
        },
{
    match answer {
        Ok(audio) => Ok(SpeechSynthesisResponse { id, audio }),
        Err(reason) => Err(CloudTextToSpeechError::CallError(reason)),
    }
}

impl Service for GoogleCloudTextToSpeech {
    type Input = SpeechSynthesisRequest;

    type Output = SpeechSynthesisResponse;

    type Error = CloudTextToSpeechError;
}

impl<'c> FromConfig<'c> for GoogleCloudTextToSpeech {
    type Config = &'c Config;

    type Error = CloudTextToSpeechError;

    fn credentials<'a>(config: &'a &'c Config) -> (path: Result<
        &'a String,
        CloudTextToSpeechError,
    >)
        ensures
            match config@.gctts_config {
                Some(service_account_path) => {
                    &&& path matches Ok(path)
                    &&& path@ == service_account_path
                },
                None => path == Err::<&'a String, CloudTextToSpeechError>(
                    CloudTextToSpeechError::NoSuitableConfigFound,
                ),
            },
    {
        match config.gctts_config() {
            Some(settings) => Ok(&settings.service_account_path),
            None => Err(CloudTextToSpeechError::NoSuitableConfigFound),
        }
    }

    fn from_config(config: &'c Config, token: String) -> (service: Result<
        Self,
        CloudTextToSpeechError,
    >)
        ensures
            match config@.gctts_config {
                Some(_) => service == Ok::<Self, CloudTextToSpeechError>(
                    (GoogleCloudTextToSpeech { token }),
                ),
                None => service == Err::<Self, CloudTextToSpeechError>(
                    CloudTextToSpeechError::NoSuitableConfigFound,
                ),
            },
    {
        match config.gctts_config() {
            Some(_) => Ok(GoogleCloudTextToSpeech::new(token)),
            None => Err(CloudTextToSpeechError::NoSuitableConfigFound),
        }
    }
}

} // verus!
