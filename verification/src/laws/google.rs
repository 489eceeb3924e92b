use vstd::prelude::*;
use vstd::utf8::encode_utf8;

use std::time::Duration;

use crate::config::Config;
use crate::gcs::await_time::AwaitTime;
use crate::gcs::config::GoogleCloudSpeechConfig;
use crate::gcs::driver::{
    is_first_final, is_transcription_of, AudioEvent, CloudSpeechError, GoogleCloudSpeech, SpeechCall,
    DOMAIN_NAME, ENDPOINT,
};
use crate::gcs::types::{
    AudioChannelCount, AudioEncoding, MaxAlternatives, SampleRateHertz, StreamingRecognizeRequest,
    StreamingRecognizeResponse, StreamingRequest,
};
use crate::gctts::config::GoogleCloudTextToSpeechConfig;
use crate::gctts::driver::{
    prepare_request, prepare_response, CloudTextToSpeechError, GoogleCloudTextToSpeech,
};
use crate::gctts::types::{
    AudioEncoding as SpeechEncoding, SsmlVoiceGender, SynthesizeSpeechRequest,
};
use crate::google::{oauth_key, oauth_key_needs_plain_token, AUTH_SCOPE};
use crate::recognition::{SpeechRecognitionResponse, SpeechRecognitionServiceConfig};
use crate::service::FromConfig;
use crate::synthesis::{
    NumberBits, SpeechSynthesisRequest, SpeechSynthesisResponse, SynthesisVoiceGender,
};
use crate::time::seconds;

verus! {

/// Can a token stand in a key: is each of its characters a tab or no ASCII control character?
pub open spec fn is_sendable(token: Seq<char>) -> bool {
    forall|i: int|
        0 <= i < token.len() ==> ((#[trigger] token[i]) as u32 == 9 || token[i] as u32 >= 32
            && token[i] as u32 != 127)
}

/// A token makes a key exactly if it can stand in one. The key has all of the token, behind the word
/// for a bearer.
pub proof fn key_of_a_token(token: &str, key: Option<Vec<u8>>)
    requires
        call_ensures(oauth_key, (token,), key),
    ensures
        key is Some <==> is_sendable(token@),
        key matches Some(bytes) ==> bytes@ == encode_utf8("Bearer "@ + token@),
{
    oauth_key_needs_plain_token(token@);
}

/// A number of seconds makes an await time exactly if it is at most ten, and that is its span. Without
/// a number it is five seconds.
pub proof fn await_times(
    secs: u64,
    time: Option<AwaitTime>,
    made: AwaitTime,
    span: &Duration,
    default: AwaitTime,
    default_span: &Duration,
)
    requires
        call_ensures(AwaitTime::new, (secs,), time),
        time matches Some(time) ==> made == time,
        call_ensures(AwaitTime::inner, (&made,), span),
        call_ensures(<AwaitTime as Default>::default, (), default),
        call_ensures(AwaitTime::inner, (&default,), default_span),
    ensures
        time is Some <==> secs <= 10,
        time is Some ==> *span == seconds(secs),
        *default_span == seconds(5),
{
}

/// A number of each kind is accepted exactly if it is valid, and is the one that was given.
pub proof fn numbers_are_kept(
    rate: u16,
    made_rate: Option<SampleRateHertz>,
    some_rate: SampleRateHertz,
    told_rate: u16,
    alternatives: u8,
    made_alternatives: Option<MaxAlternatives>,
    some_alternatives: MaxAlternatives,
    told_alternatives: u8,
)
    requires
        call_ensures(SampleRateHertz::new, (rate,), made_rate),
        made_rate matches Some(made) ==> some_rate == made,
        call_ensures(SampleRateHertz::get, (&some_rate,), told_rate),
        call_ensures(MaxAlternatives::new, (alternatives,), made_alternatives),
        made_alternatives matches Some(made) ==> some_alternatives == made,
        call_ensures(MaxAlternatives::get, (&some_alternatives,), told_alternatives),
    ensures
        made_rate is Some <==> 8000 <= rate <= 48000,
        made_rate is Some ==> told_rate == rate,
        made_alternatives is Some <==> alternatives <= 30,
        made_alternatives is Some ==> told_alternatives == alternatives,
{
}

/// A number of channels is accepted exactly if audio of the encoding can have it, and is the one that
/// was given.
pub proof fn channels_are_kept(
    value: u8,
    encoding: AudioEncoding,
    made: Option<AudioChannelCount>,
    count: AudioChannelCount,
    told: u8,
)
    requires
        call_ensures(AudioChannelCount::new, (value, encoding), made),
        made matches Some(made) ==> count == made,
        call_ensures(AudioChannelCount::get, (&count,), told),
    ensures
        made is Some ==> told == value,
        encoding == AudioEncoding::Linear16 || encoding == AudioEncoding::Flac ==> (made is Some
            <==> 1 <= value <= 8),
        encoding == AudioEncoding::OggOpus ==> (made is Some <==> 1 <= value <= 254),
        encoding == AudioEncoding::Mulaw || encoding == AudioEncoding::Amr || encoding
            == AudioEncoding::AmrWb || encoding == AudioEncoding::SpeexWithHeaderByte ==> (
        made is Some <==> value == 1),
        encoding == AudioEncoding::Unspecified ==> made is None,
{
}

/// Speech recognition is made exactly if there are settings. It has the language and the switches of
/// the call, the token, and the await time of the settings if that is at most ten seconds, five
/// seconds otherwise. Its credentials are those of the settings.
pub proof fn recognition_is_made_of_its_config<'c>(
    config: SpeechRecognitionServiceConfig<'c>,
    token: String,
    settings: &Option<GoogleCloudSpeechConfig>,
    path: Result<&String, CloudSpeechError>,
    result: Result<GoogleCloudSpeech, CloudSpeechError>,
    service: GoogleCloudSpeech,
    span: &Duration,
)
    requires
        call_ensures(Config::gcs_config, (config.application_config,), settings),
        call_ensures(
            <GoogleCloudSpeech as FromConfig<'c>>::credentials,
            (&config,),
            path,
        ),
        call_ensures(
            <GoogleCloudSpeech as FromConfig<'c>>::from_config,
            (config, token),
            result,
        ),
        result matches Ok(made) ==> service == made,
        call_ensures(AwaitTime::inner, (&service.max_time,), span),
    ensures
        match *settings {
            Some(settings) => {
                &&& path matches Ok(path) && path@ == settings.service_account_path@
                &&& result is Ok
                &&& service.language@ == config.recognition_config.language@
                &&& service.punctuation == config.recognition_config.punctuation
                &&& service.profanity_filter == config.recognition_config.profanity_filter
                &&& service.token@ == token@
                &&& match settings.max_await_time {
                    Some(secs) if secs <= 10 => *span == seconds(secs),
                    _ => *span == seconds(5),
                }
            },
            None => {
                &&& path matches Err(CloudSpeechError::NoSuitableConfigFound)
                &&& result matches Err(CloudSpeechError::NoSuitableConfigFound)
            },
        },
{
}

/// A call of the recognizer is made exactly if the token can be sent. Its first message asks for
/// telephone audio in the language of the service, with the switches of the service, and for interim
/// results until the call ends.
pub proof fn call_opens_with_the_config(
    service: GoogleCloudSpeech,
    result: Result<SpeechCall, CloudSpeechError>,
    numbers: (u16, u8, u8),
)
    requires
        call_ensures(GoogleCloudSpeech::stream, (service,), result),
        result matches Ok(call) && (call.opening.streaming_request
            matches StreamingRequest::StreamingConfig(streaming) && {
            &&& call_ensures(
                SampleRateHertz::get,
                (&streaming.config.sample_rate_hertz,),
                numbers.0,
            )
            &&& call_ensures(
                AudioChannelCount::get,
                (&streaming.config.audio_channel_count,),
                numbers.1,
            )
            &&& call_ensures(
                MaxAlternatives::get,
                (&streaming.config.max_alternatives,),
                numbers.2,
            )
        }) || result is Err,
    ensures
        result is Ok <==> is_sendable(service.token@),
        result matches Err(error) ==> error == CloudSpeechError::InvalidOauthKey,
        result matches Ok(call) ==> {
            &&& call.oauth_key@ == encode_utf8("Bearer "@ + service.token@)
            &&& call.max_time == service.max_time
            &&& call.opening.streaming_request matches StreamingRequest::StreamingConfig(streaming)
            &&& !streaming.single_utterance
            &&& streaming.interim_results
            &&& streaming.config.encoding == AudioEncoding::Linear16
            &&& numbers == (8000u16, 1u8, 1u8)
            &&& !streaming.config.enable_separate_recognition_per_channel
            &&& streaming.config.language_code@ == service.language@
            &&& streaming.config.profanity_filter == service.profanity_filter
            &&& streaming.config.speech_contexts@.len() == 0
            &&& !streaming.config.enable_word_time_offsets
            &&& streaming.config.enable_automatic_punctuation == service.punctuation
            &&& streaming.config.model@ == "phone_call"@
            &&& !streaming.config.use_enhanced
        },
{
    oauth_key_needs_plain_token(service.token@);
}

/// A call that can be made opens with a config, and never with audio.
pub proof fn call_never_opens_with_audio(
    service: GoogleCloudSpeech,
    result: Result<SpeechCall, CloudSpeechError>,
)
    requires
        call_ensures(GoogleCloudSpeech::stream, (service,), result),
    ensures
        result is Ok <==> is_sendable(service.token@),
        result matches Ok(call) ==> call.opening.streaming_request is StreamingConfig,
{
    oauth_key_needs_plain_token(service.token@);
}

/// A service is made of what it is given.
pub proof fn service_keeps_what_it_is_given(
    language: String,
    punctuation: bool,
    profanity_filter: bool,
    max_time: AwaitTime,
    token: String,
    speech: GoogleCloudSpeech,
    text_to_speech: GoogleCloudTextToSpeech,
)
    requires
        call_ensures(
            GoogleCloudSpeech::new,
            (language, punctuation, profanity_filter, max_time, token),
            speech,
        ),
        call_ensures(GoogleCloudTextToSpeech::new, (token,), text_to_speech),
    ensures
        speech.language@ == language@,
        speech.punctuation == punctuation,
        speech.profanity_filter == profanity_filter,
        speech.max_time == max_time,
        speech.token@ == token@,
        text_to_speech.token@ == token@,
{
}

/// Audio of any bytes and any length is sent to the recognizer as it is. If there is none for too long,
/// it is sent one chunk of zeros.
pub proof fn audio_is_sent_to_the_recognizer(event: AudioEvent, request: StreamingRecognizeRequest)
    requires
        call_ensures(GoogleCloudSpeech::audio_request, (event,), request),
    ensures
        request.streaming_request matches StreamingRequest::AudioContent(content) && match event {
            AudioEvent::Audio(given) => content@ == given.audio@,
            AudioEvent::Elapsed => {
                &&& content@.len() == 320
                &&& forall|i: int| 0 <= i < 320 ==> (#[trigger] content@[i]) == 0
            },
        },
{
}

/// Is this the transcription of an answer: the last alternative of the first result that is final, if
/// there is such a result with any alternative?
pub open spec fn is_transcript(
    response: StreamingRecognizeResponse,
    result: Option<SpeechRecognitionResponse>,
) -> bool {
    &&& forall|index: int|
        {
            &&& 0 <= index < response.results@.len()
            &&& (#[trigger] response.results@[index]).is_final
            &&& forall|i: int| 0 <= i < index ==> !(#[trigger] response.results@[i]).is_final
        } ==> {
            let alternatives = response.results@[index].alternatives@;
            &&& result is Some <==> alternatives.len() > 0
            &&& result matches Some(recognized) ==> recognized.transcription@
                == alternatives[alternatives.len() - 1].transcript@
        }
    &&& (forall|index: int|
        0 <= index < response.results@.len() ==> !(
        #[trigger] response.results@[index]).is_final) ==> result is None
}

/// Of every answer of the recognizer the transcription is taken, and no interim result. An error is
/// handed on with its reason.
pub proof fn transcription_of_an_answer(
    response: StreamingRecognizeResponse,
    result: Option<SpeechRecognitionResponse>,
    answered: Result<Option<SpeechRecognitionResponse>, CloudSpeechError>,
    reason: String,
    failed: Result<Option<SpeechRecognitionResponse>, CloudSpeechError>,
)
    requires
        call_ensures(GoogleCloudSpeech::transcription, (response,), result),
        call_ensures(
            GoogleCloudSpeech::answer,
            (Ok::<StreamingRecognizeResponse, String>(response),),
            answered,
        ),
        call_ensures(
            GoogleCloudSpeech::answer,
            (Err::<StreamingRecognizeResponse, String>(reason),),
            failed,
        ),
    ensures
        is_transcript(response, result),
        answered matches Ok(answered) && is_transcript(response, answered),
        failed == Err::<Option<SpeechRecognitionResponse>, CloudSpeechError>(
            CloudSpeechError::CallError(reason),
        ),
{
    lemma_transcript(response, result);
    if let Ok(answered) = answered {
        lemma_transcript(response, answered);
    }
}

/// What the contract of a transcription says of its answer.
proof fn lemma_transcript(
    response: StreamingRecognizeResponse,
    result: Option<SpeechRecognitionResponse>,
)
    requires
        is_transcription_of(response, result),
    ensures
        is_transcript(response, result),
{
    let results = response.results@;
    assert forall|index: int|
        {
            &&& 0 <= index < results.len()
            &&& (#[trigger] results[index]).is_final
            &&& forall|i: int| 0 <= i < index ==> !(#[trigger] results[i]).is_final
        } implies {
        let alternatives = results[index].alternatives@;
        &&& result is Some <==> alternatives.len() > 0
        &&& result matches Some(recognized) ==> recognized.transcription@
            == alternatives[alternatives.len() - 1].transcript@
    } by {
        assert(is_first_final(results, index));
        if let Some(recognized) = result {
            let first = choose|first: int| #[trigger]
                is_first_final(results, first)
                    && results[first].alternatives@.len() > 0 && recognized.transcription@
                    == results[first].alternatives@.last().transcript@;
            assert(first == index) by {
                if first < index {
                    assert(!results[first].is_final);
                }
                if index < first {
                    assert(!results[index].is_final);
                }
            }
        }
    }
}

/// Does the voice have the gender that was asked for?
pub open spec fn has_gender(voice: SsmlVoiceGender, asked: Option<SynthesisVoiceGender>) -> bool {
    &&& voice == SsmlVoiceGender::Male <==> asked == Some(SynthesisVoiceGender::Male)
    &&& voice == SsmlVoiceGender::Female <==> asked == Some(SynthesisVoiceGender::Female)
    &&& voice == SsmlVoiceGender::Neutral <==> asked == Some(SynthesisVoiceGender::Neutral)
    &&& voice == SsmlVoiceGender::Unspecified <==> (asked is None || asked == Some(
        SynthesisVoiceGender::Any,
    ))
}

/// The message that asks for speech has the whole text, the language, the gender, the rate and the
/// pitch of the request, and asks for telephone audio. What the request leaves open is the native rate
/// and the original pitch.
pub proof fn speech_is_asked_for_as_requested(
    request: SpeechSynthesisRequest,
    message: SynthesizeSpeechRequest,
)
    requires
        call_ensures(prepare_request, (request,), message),
    ensures
        message.ssml@ == request.ssml@,
        message.voice.language_code@ == request.language_code@,
        message.voice.name@.len() == 0,
        has_gender(message.voice.ssml_gender, request.gender),
        request.speaking_rate matches Some(rate) ==> message.audio_config.speaking_rate == rate,
        request.speaking_rate is None ==> message.audio_config.speaking_rate == (NumberBits {
            bits: 0x3FF0_0000_0000_0000,
        }),
        request.pitch matches Some(pitch) ==> message.audio_config.pitch == pitch,
        request.pitch is None ==> message.audio_config.pitch == (NumberBits { bits: 0 }),
        message.audio_config.volume_gain_db == (NumberBits { bits: 0 }),
        message.audio_config.audio_encoding == SpeechEncoding::Linear16,
        message.audio_config.sample_rate_hertz == 8000,
        message.audio_config.effects_profile_id@.len() == 1,
        message.audio_config.effects_profile_id@[0]@ == "telephony-class-application"@,
{
    reveal_strlit("");
}

/// Two requests for different genders ask for different voices.
pub proof fn different_genders_are_different_voices(
    request: SpeechSynthesisRequest,
    message: SynthesizeSpeechRequest,
    other: SpeechSynthesisRequest,
    other_message: SynthesizeSpeechRequest,
)
    requires
        call_ensures(prepare_request, (request,), message),
        call_ensures(prepare_request, (other,), other_message),
        request.gender is Some,
        other.gender is Some,
    ensures
        message.voice.ssml_gender == other_message.voice.ssml_gender <==> request.gender
            == other.gender,
{
}

/// A gender becomes the voice gender of the same name, and any gender an unspecified one.
pub proof fn genders_become_voice_genders(asked: SynthesisVoiceGender, voice: SsmlVoiceGender)
    requires
        call_ensures(<SsmlVoiceGender as From<SynthesisVoiceGender>>::from, (asked,), voice),
    ensures
        has_gender(voice, Some(asked)),
{
}

/// Audio that was synthesized, all of it, goes to the handler that has asked for it. An error is handed
/// on with its reason.
pub proof fn synthesized_audio_goes_to_who_asked(
    id: u128,
    audio: Vec<u8>,
    response: Result<SpeechSynthesisResponse, CloudTextToSpeechError>,
    reason: String,
    failed: Result<SpeechSynthesisResponse, CloudTextToSpeechError>,
)
    requires
        call_ensures(prepare_response, (id, Ok::<Vec<u8>, String>(audio)), response),
        call_ensures(prepare_response, (id, Err::<Vec<u8>, String>(reason)), failed),
    ensures
        response matches Ok(response) && response.id == id && response.audio@ == audio@,
        failed == Err::<SpeechSynthesisResponse, CloudTextToSpeechError>(
            CloudTextToSpeechError::CallError(reason),
        ),
{
}

/// Speech synthesis is made exactly if there are settings, with the token and with the credentials of
/// the settings. It can be called exactly if the token can be sent.
pub proof fn synthesis_is_made_of_its_config<'c>(
    config: &'c Config,
    token: String,
    settings: &Option<GoogleCloudTextToSpeechConfig>,
    path: Result<&String, CloudTextToSpeechError>,
    result: Result<GoogleCloudTextToSpeech, CloudTextToSpeechError>,
    service: GoogleCloudTextToSpeech,
    key: Result<Vec<u8>, CloudTextToSpeechError>,
)
    requires
        call_ensures(Config::gctts_config, (config,), settings),
        call_ensures(
            <GoogleCloudTextToSpeech as FromConfig<'c>>::credentials,
            (&config,),
            path,
        ),
        call_ensures(
            <GoogleCloudTextToSpeech as FromConfig<'c>>::from_config,
            (config, token),
            result,
        ),
        call_ensures(GoogleCloudTextToSpeech::stream, (service,), key),
    ensures
        match *settings {
            Some(settings) => {
                &&& path matches Ok(path) && path@ == settings.service_account_path@
                &&& result matches Ok(made) && made.token@ == token@
            },
            None => {
                &&& path matches Err(CloudTextToSpeechError::NoSuitableConfigFound)
                &&& result matches Err(CloudTextToSpeechError::NoSuitableConfigFound)
            },
        },
        key is Ok <==> is_sendable(service.token@),
        key matches Ok(bytes) ==> bytes@ == encode_utf8("Bearer "@ + service.token@),
        key matches Err(error) ==> error == CloudTextToSpeechError::InvalidOauthKey,
{
    oauth_key_needs_plain_token(service.token@);
}

/// The text of an error of speech recognition says what has failed, and tells the reason in full.
pub proof fn recognition_error_texts(error: CloudSpeechError, text: String)
    requires
        call_ensures(CloudSpeechError::describe, (&error,), text),
    ensures
        text@ == match error {
            CloudSpeechError::NoSuitableConfigFound =>
                "Application config doesn't contain GCS settings"@,
            CloudSpeechError::TransportError(reason) => "Transport error: "@ + reason@,
            CloudSpeechError::IoError(error) => "IO error: "@ + error.description@,
            CloudSpeechError::InvalidOauthKey =>
                "Invalid OAuth key provided: failed to parse metadata value"@,
            CloudSpeechError::AuthenticationError(reason) => "Authentication error: "@ + reason@,
            CloudSpeechError::CallError(reason) => "Unable to call gRPC API: "@ + reason@,
            CloudSpeechError::FlumeError(reason) =>
                "Unable to send transcription to background service: "@ + reason@,
        },
{
}

/// The text of an error of speech synthesis says what has failed, and tells the reason in full.
pub proof fn synthesis_error_texts(error: CloudTextToSpeechError, text: String)
    requires
        call_ensures(CloudTextToSpeechError::describe, (&error,), text),
    ensures
        text@ == match error {
            CloudTextToSpeechError::NoSuitableConfigFound =>
                "Application config doesn't contain GCTTS settings"@,
            CloudTextToSpeechError::TransportError(reason) => "Transport error: "@ + reason@,
            CloudTextToSpeechError::IoError(error) => "IO error: "@ + error.description@,
            CloudTextToSpeechError::InvalidOauthKey =>
                "Invalid OAuth key provided: failed to parse metadata value"@,
            CloudTextToSpeechError::AuthenticationError(reason) => "Authentication error: "@ + reason@,
            CloudTextToSpeechError::CallError(reason) => "Unable to call gRPC API: "@ + reason@,
        },
{
}

/// Either service is called over a secure connection to its own domain.
pub proof fn endpoints_are_of_their_domains()
    ensures
        ENDPOINT@ == "https://"@ + DOMAIN_NAME@,
        DOMAIN_NAME@ == "speech.googleapis.com"@,
        crate::gctts::driver::ENDPOINT@ == "https://"@ + crate::gctts::driver::DOMAIN_NAME@,
        crate::gctts::driver::DOMAIN_NAME@ == "texttospeech.googleapis.com"@,
        AUTH_SCOPE@ == "https://www.googleapis.com/auth/cloud-platform"@,
{
    reveal_strlit("https://");
    reveal_strlit("speech.googleapis.com");
    reveal_strlit("https://speech.googleapis.com");
    reveal_strlit("texttospeech.googleapis.com");
    reveal_strlit("https://texttospeech.googleapis.com");
    assert(ENDPOINT@ =~= "https://"@ + DOMAIN_NAME@);
    assert(crate::gctts::driver::ENDPOINT@ =~= "https://"@ + crate::gctts::driver::DOMAIN_NAME@);
}

} // verus!
