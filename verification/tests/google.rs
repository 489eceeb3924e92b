use std::time::Duration;

use ems::config::{Cli, Config, ConfigFile, LoadedFile, SocketAddress};
use ems::gcs::await_time::AwaitTime;
use ems::gcs::config::GoogleCloudSpeechConfig;
use ems::gcs::driver::{AudioEvent, CloudSpeechError, GoogleCloudSpeech};
use ems::gcs::types::{
    AudioChannelCount, AudioEncoding, MaxAlternatives, SampleRateHertz,
    SpeechRecognitionAlternative, StreamingRecognitionResult, StreamingRecognizeResponse,
    StreamingRequest,
};
use ems::gctts::config::GoogleCloudTextToSpeechConfig;
use ems::gctts::driver::{
    prepare_request, prepare_response, CloudTextToSpeechError, GoogleCloudTextToSpeech, ONE_BITS,
    ZERO_BITS,
};
use ems::gctts::types::SsmlVoiceGender;
use ems::google::{oauth_key, AUTH_SCOPE};
use ems::recognition::{
    SpeechRecognitionConfig, SpeechRecognitionRequest, SpeechRecognitionServiceConfig,
};
use ems::server::{IoError, IoErrorKind};
use ems::service::FromConfig;
use ems::synthesis::{NumberBits, SpeechSynthesisRequest, SynthesisVoiceGender};

fn config(max_await_time: Option<Option<u64>>, with_gctts: bool) -> Config {
    let file = ConfigFile {
        threads: None,
        audiosocket_addr: SocketAddress::V4 { ipv4: 0, port: 1 },
        websocket_addr: SocketAddress::V4 { ipv4: 0, port: 2 },
        message_timeout: None,
        recognition_config_timeout: None,
        recognition_driver: None,
        synthesis_driver: None,
        gcs: max_await_time.map(|max_await_time| GoogleCloudSpeechConfig {
            service_account_path: String::from("gcs.json"),
            max_await_time,
        }),
        gctts: if with_gctts {
            Some(GoogleCloudTextToSpeechConfig { service_account_path: String::from("gctts.json") })
        } else {
            None
        },
        recognition_fallback: None,
        loopback_audio: None,
    };
    Config::try_from(Cli::new(None), LoadedFile::Parsed(file)).unwrap()
}

fn speech_config(application_config: &Config) -> SpeechRecognitionServiceConfig<'_> {
    SpeechRecognitionServiceConfig {
        application_config,
        recognition_config: SpeechRecognitionConfig {
            language: String::from("ru-RU"),
            profanity_filter: true,
            punctuation: false,
        },
    }
}

#[test]
fn await_time_is_at_most_ten_seconds() {
    assert_eq!(*AwaitTime::new(0).unwrap().inner(), Duration::from_secs(0));
    assert_eq!(*AwaitTime::new(10).unwrap().inner(), Duration::from_secs(10));
    assert!(AwaitTime::new(11).is_none());
    assert!(AwaitTime::new(u64::MAX).is_none());
    assert_eq!(*AwaitTime::default().inner(), Duration::from_secs(5));
}

#[test]
fn sample_rates() {
    assert!(SampleRateHertz::new(7999).is_none());
    assert_eq!(SampleRateHertz::new(8000).unwrap().get(), 8000);
    assert_eq!(SampleRateHertz::new(48000).unwrap().get(), 48000);
    assert!(SampleRateHertz::new(48001).is_none());
}

#[test]
fn channel_counts() {
    let accepted = |encoding: AudioEncoding| {
        (0..=255u8)
            .filter(|value| AudioChannelCount::new(*value, encoding).is_some())
            .collect::<Vec<u8>>()
    };
    assert_eq!(accepted(AudioEncoding::Unspecified), Vec::<u8>::new());
    assert_eq!(accepted(AudioEncoding::Linear16), (1..=8).collect::<Vec<u8>>());
    assert_eq!(accepted(AudioEncoding::Flac), (1..=8).collect::<Vec<u8>>());
    assert_eq!(accepted(AudioEncoding::OggOpus), (1..=254).collect::<Vec<u8>>());
    assert_eq!(accepted(AudioEncoding::Mulaw), [1]);
    assert_eq!(accepted(AudioEncoding::Amr), [1]);
    assert_eq!(accepted(AudioEncoding::AmrWb), [1]);
    assert_eq!(accepted(AudioEncoding::SpeexWithHeaderByte), [1]);
    assert_eq!(AudioChannelCount::new(3, AudioEncoding::Flac).unwrap().get(), 3);
}

#[test]
fn alternative_counts() {
    assert_eq!(MaxAlternatives::new(0).unwrap().get(), 0);
    assert_eq!(MaxAlternatives::new(30).unwrap().get(), 30);
    assert!(MaxAlternatives::new(31).is_none());
}

#[test]
fn oauth_keys() {
    assert_eq!(AUTH_SCOPE, "https://www.googleapis.com/auth/cloud-platform");
    assert_eq!(oauth_key("abc").unwrap(), b"Bearer abc");
    assert_eq!(oauth_key("").unwrap(), b"Bearer ");
    assert_eq!(oauth_key("a\tb").unwrap(), b"Bearer a\tb");
    assert_eq!(oauth_key("\u{e9}").unwrap(), "Bearer \u{e9}".as_bytes());
    assert!(oauth_key("a\nb").is_none());
    assert!(oauth_key("\u{7f}").is_none());
    assert!(oauth_key("\0").is_none());
}

#[test]
fn keys_with_every_ascii_character() {
    for byte in 0..128u8 {
        let token = String::from(byte as char);
        let plain = byte == 9 || byte >= 32 && byte != 127;
        assert_eq!(oauth_key(&token).is_some(), plain);
    }
}

#[test]
fn speech_is_made_from_its_config() {
    let with_settings = config(Some(Some(2)), false);
    assert_eq!(
        GoogleCloudSpeech::credentials(&speech_config(&with_settings)).unwrap(),
        "gcs.json"
    );
    let service =
        GoogleCloudSpeech::from_config(speech_config(&with_settings), String::from("key")).unwrap();
    assert_eq!(service.language, "ru-RU");
    assert!(service.profanity_filter);
    assert!(!service.punctuation);
    assert_eq!(*service.max_time.inner(), Duration::from_secs(2));
    assert_eq!(service.token, "key");

    for max_await_time in [None, Some(11)] {
        let settings = config(Some(max_await_time), false);
        let service =
            GoogleCloudSpeech::from_config(speech_config(&settings), String::from("key")).unwrap();
        assert_eq!(*service.max_time.inner(), Duration::from_secs(5));
    }

    let without_settings = config(None, true);
    assert!(matches!(
        GoogleCloudSpeech::credentials(&speech_config(&without_settings)),
        Err(CloudSpeechError::NoSuitableConfigFound)
    ));
    assert!(matches!(
        GoogleCloudSpeech::from_config(speech_config(&without_settings), String::from("key")),
        Err(CloudSpeechError::NoSuitableConfigFound)
    ));
}

fn speech(token: &str) -> GoogleCloudSpeech {
    GoogleCloudSpeech::new(
        String::from("en-US"),
        true,
        false,
        AwaitTime::new(1).unwrap(),
        String::from(token),
    )
}

#[test]
fn first_message_is_the_config() {
    let call = speech("key").stream().unwrap();
    assert_eq!(call.oauth_key, b"Bearer key");
    assert_eq!(*call.max_time.inner(), Duration::from_secs(1));
    let streaming = match call.opening.streaming_request {
        StreamingRequest::StreamingConfig(streaming) => streaming,
        StreamingRequest::AudioContent(_) => panic!("audio comes first"),
    };
    assert!(!streaming.single_utterance);
    assert!(streaming.interim_results);
    assert_eq!(streaming.config.encoding, AudioEncoding::Linear16);
    assert_eq!(streaming.config.sample_rate_hertz.get(), 8000);
    assert_eq!(streaming.config.audio_channel_count.get(), 1);
    assert!(!streaming.config.enable_separate_recognition_per_channel);
    assert_eq!(streaming.config.language_code, "en-US");
    assert_eq!(streaming.config.max_alternatives.get(), 1);
    assert!(!streaming.config.profanity_filter);
    assert!(streaming.config.speech_contexts.is_empty());
    assert!(!streaming.config.enable_word_time_offsets);
    assert!(streaming.config.enable_automatic_punctuation);
    assert_eq!(streaming.config.model, "phone_call");
    assert!(!streaming.config.use_enhanced);
}

#[test]
fn invalid_token_makes_no_call() {
    assert!(matches!(speech("a\r").stream(), Err(CloudSpeechError::InvalidOauthKey)));
    assert!(matches!(
        GoogleCloudTextToSpeech::new(String::from("a\r")).stream(),
        Err(CloudTextToSpeechError::InvalidOauthKey)
    ));
}

fn audio_of(event: AudioEvent) -> Vec<u8> {
    match GoogleCloudSpeech::audio_request(event).streaming_request {
        StreamingRequest::AudioContent(audio) => audio,
        StreamingRequest::StreamingConfig(_) => panic!("config comes again"),
    }
}

#[test]
fn later_messages_are_audio() {
    let request = SpeechRecognitionRequest { audio: vec![1, 2] };
    assert_eq!(audio_of(AudioEvent::Audio(request)), [1, 2]);
    assert_eq!(audio_of(AudioEvent::Elapsed), [0; 320]);
}

fn result(is_final: bool, transcripts: &[&str]) -> StreamingRecognitionResult {
    StreamingRecognitionResult {
        alternatives: transcripts
            .iter()
            .map(|transcript| SpeechRecognitionAlternative {
                transcript: String::from(*transcript),
                confidence: 0.5f32.to_bits(),
                words: Vec::new(),
            })
            .collect(),
        is_final,
    }
}

fn transcription(results: Vec<StreamingRecognitionResult>) -> Option<String> {
    GoogleCloudSpeech::transcription(StreamingRecognizeResponse { results })
        .map(|response| response.transcription)
}

#[test]
fn transcription_is_taken_from_the_first_final_result() {
    assert_eq!(transcription(vec![]), None);
    assert_eq!(transcription(vec![result(false, &["interim"])]), None);
    assert_eq!(
        transcription(vec![
            result(false, &["interim"]),
            result(true, &["one"]),
            result(true, &["two"]),
        ]),
        Some(String::from("one"))
    );
    assert_eq!(
        transcription(vec![result(true, &["first", "last"])]),
        Some(String::from("last"))
    );
    assert_eq!(transcription(vec![result(true, &[]), result(true, &["two"])]), None);
}

#[test]
fn answers_of_the_recognizer() {
    let final_answer = StreamingRecognizeResponse { results: vec![result(true, &["one"])] };
    let response = GoogleCloudSpeech::answer(Ok(final_answer)).unwrap().unwrap();
    assert_eq!(response.transcription, "one");
    let interim_answer = StreamingRecognizeResponse { results: vec![result(false, &["one"])] };
    assert!(GoogleCloudSpeech::answer(Ok(interim_answer)).unwrap().is_none());
    match GoogleCloudSpeech::answer(Err(String::from("denied"))) {
        Err(error) => assert_eq!(error.describe(), "Unable to call gRPC API: denied"),
        Ok(_) => panic!("error is lost"),
    }
}

#[test]
fn text_to_speech_is_made_from_its_config() {
    let with_settings = config(None, true);
    assert_eq!(
        GoogleCloudTextToSpeech::credentials(&&with_settings).unwrap(),
        "gctts.json"
    );
    let service =
        GoogleCloudTextToSpeech::from_config(&with_settings, String::from("key")).unwrap();
    assert_eq!(service.token, "key");
    assert_eq!(service.stream().unwrap(), b"Bearer key");

    let without_settings = config(Some(None), false);
    assert!(matches!(
        GoogleCloudTextToSpeech::credentials(&&without_settings),
        Err(CloudTextToSpeechError::NoSuitableConfigFound)
    ));
    assert!(matches!(
        GoogleCloudTextToSpeech::from_config(&without_settings, String::from("key")),
        Err(CloudTextToSpeechError::NoSuitableConfigFound)
    ));
}

#[test]
fn synthesis_requests() {
    let message = prepare_request(SpeechSynthesisRequest {
        id: 1,
        ssml: String::from("<speak>Hi</speak>"),
        language_code: String::from("de-DE"),
        gender: Some(SynthesisVoiceGender::Female),
        speaking_rate: Some(NumberBits { bits: 2.0f64.to_bits() }),
        pitch: Some(NumberBits { bits: (-1.5f64).to_bits() }),
    });
    assert_eq!(message.ssml, "<speak>Hi</speak>");
    assert_eq!(message.voice.language_code, "de-DE");
    assert_eq!(message.voice.name, "");
    assert_eq!(message.voice.ssml_gender, SsmlVoiceGender::Female);
    assert_eq!(f64::from_bits(message.audio_config.speaking_rate.bits), 2.0);
    assert_eq!(f64::from_bits(message.audio_config.pitch.bits), -1.5);
    assert_eq!(f64::from_bits(message.audio_config.volume_gain_db.bits), 0.0);
    assert_eq!(message.audio_config.sample_rate_hertz, 8000);
    assert_eq!(message.audio_config.effects_profile_id, ["telephony-class-application"]);
}

#[test]
fn synthesis_defaults() {
    let message = prepare_request(SpeechSynthesisRequest {
        id: 1,
        ssml: String::from("Hi"),
        language_code: String::from("en-US"),
        gender: None,
        speaking_rate: None,
        pitch: None,
    });
    assert_eq!(message.voice.ssml_gender, SsmlVoiceGender::Unspecified);
    assert_eq!(f64::from_bits(message.audio_config.speaking_rate.bits), 1.0);
    assert_eq!(f64::from_bits(message.audio_config.pitch.bits), 0.0);
    assert_eq!(ONE_BITS, 1.0f64.to_bits());
    assert_eq!(ZERO_BITS, 0.0f64.to_bits());
}

#[test]
fn genders() {
    assert_eq!(SynthesisVoiceGender::from("male"), SynthesisVoiceGender::Male);
    assert_eq!(SynthesisVoiceGender::from("female"), SynthesisVoiceGender::Female);
    assert_eq!(SynthesisVoiceGender::from("neutral"), SynthesisVoiceGender::Neutral);
    assert_eq!(SynthesisVoiceGender::from("Male"), SynthesisVoiceGender::Any);
    assert_eq!(SynthesisVoiceGender::from(""), SynthesisVoiceGender::Any);
    assert_eq!(SsmlVoiceGender::from(SynthesisVoiceGender::Any), SsmlVoiceGender::Unspecified);
    assert_eq!(SsmlVoiceGender::from(SynthesisVoiceGender::Male), SsmlVoiceGender::Male);
    assert_eq!(SsmlVoiceGender::from(SynthesisVoiceGender::Female), SsmlVoiceGender::Female);
    assert_eq!(SsmlVoiceGender::from(SynthesisVoiceGender::Neutral), SsmlVoiceGender::Neutral);
}

#[test]
fn synthesis_responses() {
    let response = prepare_response(8, Ok(vec![1, 2])).unwrap();
    assert_eq!(response.id, 8);
    assert_eq!(response.audio, [1, 2]);
    match prepare_response(8, Err(String::from("denied"))) {
        Err(error) => assert_eq!(error.describe(), "Unable to call gRPC API: denied"),
        Ok(_) => panic!("error is lost"),
    }
}

#[test]
fn google_error_texts() {
    let denied = || IoError { kind: IoErrorKind::Other, description: String::from("denied") };
    let text = |error: CloudSpeechError| error.describe();
    assert_eq!(
        text(CloudSpeechError::NoSuitableConfigFound),
        "Application config doesn't contain GCS settings"
    );
    assert_eq!(text(CloudSpeechError::TransportError(String::from("x"))), "Transport error: x");
    assert_eq!(text(CloudSpeechError::IoError(denied())), "IO error: denied");
    assert_eq!(
        text(CloudSpeechError::InvalidOauthKey),
        "Invalid OAuth key provided: failed to parse metadata value"
    );
    assert_eq!(
        text(CloudSpeechError::AuthenticationError(String::from("x"))),
        "Authentication error: x"
    );
    assert_eq!(text(CloudSpeechError::CallError(String::from("x"))), "Unable to call gRPC API: x");
    assert_eq!(
        text(CloudSpeechError::FlumeError(String::from("x"))),
        "Unable to send transcription to background service: x"
    );
    let text = |error: CloudTextToSpeechError| error.describe();
    assert_eq!(
        text(CloudTextToSpeechError::NoSuitableConfigFound),
        "Application config doesn't contain GCTTS settings"
    );
    assert_eq!(
        text(CloudTextToSpeechError::TransportError(String::from("x"))),
        "Transport error: x"
    );
    assert_eq!(text(CloudTextToSpeechError::IoError(denied())), "IO error: denied");
    assert_eq!(
        text(CloudTextToSpeechError::InvalidOauthKey),
        "Invalid OAuth key provided: failed to parse metadata value"
    );
    assert_eq!(
        text(CloudTextToSpeechError::AuthenticationError(String::from("x"))),
        "Authentication error: x"
    );
}
