use std::time::Duration;

use ems::config::{
    default_config_path, default_message_timeout, default_recognition_config_timeout, Cli, Config,
    ConfigError, ConfigFile, LoadedFile, SocketAddress, SpeechRecognitionDriver,
    SpeechSynthesisDriver,
};
use ems::gcs::config::GoogleCloudSpeechConfig;
use ems::gctts::config::GoogleCloudTextToSpeechConfig;
use ems::recognition::{RecognitionOptions, SpeechRecognitionConfig};
use ems::server::{IoError, IoErrorKind};

fn sparse() -> ConfigFile {
    ConfigFile {
        threads: None,
        audiosocket_addr: SocketAddress::V4 { ipv4: 0, port: 12345 },
        websocket_addr: SocketAddress::V6 { ipv6: 1, port: 12346, flowinfo: 0, scope_id: 0 },
        message_timeout: None,
        recognition_config_timeout: None,
        recognition_driver: None,
        synthesis_driver: None,
        gcs: None,
        gctts: None,
        recognition_fallback: None,
        loopback_audio: None,
    }
}

#[test]
fn absent_keys_have_defaults() {
    let config = Config::try_from(Cli::new(None), LoadedFile::Parsed(sparse())).unwrap();
    assert_eq!(config.threads(), None);
    assert_eq!(*config.audiosocket_addr(), SocketAddress::V4 { ipv4: 0, port: 12345 });
    assert_eq!(
        *config.websocket_addr(),
        SocketAddress::V6 { ipv6: 1, port: 12346, flowinfo: 0, scope_id: 0 }
    );
    assert_eq!(config.message_timeout(), Duration::from_secs(3));
    assert_eq!(config.recognition_config_timeout(), Duration::from_secs(3));
    assert!(config.recognition_driver().is_none());
    assert!(config.synthesis_driver().is_none());
    assert!(config.gcs_config().is_none());
    assert!(config.gctts_config().is_none());
    assert!(config.fallback_recognition_config().is_none());
    assert!(!config.loopback_audio());
}

#[test]
fn given_keys_are_kept() {
    let file = ConfigFile {
        threads: Some(4),
        message_timeout: Some(7),
        recognition_config_timeout: Some(0),
        recognition_driver: Some(SpeechRecognitionDriver::GoogleCloudSpeech),
        synthesis_driver: Some(SpeechSynthesisDriver::GoogleCloudTextToSpeech),
        gcs: Some(GoogleCloudSpeechConfig {
            service_account_path: String::from("./my_gcs_key.json"),
            max_await_time: Some(2),
        }),
        gctts: Some(GoogleCloudTextToSpeechConfig {
            service_account_path: String::from("./my_gctts_key.json"),
        }),
        recognition_fallback: Some(RecognitionOptions {
            language: String::from("ru-RU"),
            profanity_filter: Some(true),
            punctuation: None,
        }),
        loopback_audio: Some(true),
        ..sparse()
    };
    let config = Config::try_from(Cli::new(None), LoadedFile::Parsed(file)).unwrap();
    assert_eq!(config.threads(), Some(4));
    assert_eq!(config.message_timeout(), Duration::from_secs(7));
    assert_eq!(config.recognition_config_timeout(), Duration::from_secs(0));
    assert_eq!(
        *config.recognition_driver(),
        Some(SpeechRecognitionDriver::GoogleCloudSpeech)
    );
    assert_eq!(
        *config.synthesis_driver(),
        Some(SpeechSynthesisDriver::GoogleCloudTextToSpeech)
    );
    let gcs = config.gcs_config().as_ref().unwrap();
    assert_eq!(gcs.service_account_path, "./my_gcs_key.json");
    assert_eq!(gcs.max_await_time, Some(2));
    let gctts = config.gctts_config().as_ref().unwrap();
    assert_eq!(gctts.service_account_path, "./my_gctts_key.json");
    let fallback = config.fallback_recognition_config().as_ref().unwrap();
    assert_eq!(fallback.language, "ru-RU");
    assert!(fallback.profanity_filter);
    assert!(!fallback.punctuation);
    assert!(config.loopback_audio());
}

#[test]
fn unreadable_file_is_not_found() {
    let missing = IoError { kind: IoErrorKind::Other, description: String::from("no such file") };
    let cli = Cli::new(Some(String::from("/etc/ems.toml")));
    let error = Config::try_from(cli, LoadedFile::Unreadable(missing)).unwrap_err();
    assert!(matches!(error, ConfigError::ConfigNotFound(_, _)));
    assert_eq!(
        error.describe(),
        "Config file (/etc/ems.toml) cannot be loaded: no such file"
    );
}

#[test]
fn malformed_file_is_refused() {
    let malformed = LoadedFile::Malformed(String::from("expected a table"));
    let error = Config::try_from(Cli::new(None), malformed).unwrap_err();
    assert_eq!(error.describe(), "Malformed config file: expected a table");
    let zero = LoadedFile::Parsed(ConfigFile { threads: Some(0), ..sparse() });
    let error = Config::try_from(Cli::new(None), zero).unwrap_err();
    assert!(matches!(error, ConfigError::MalformedConfig(_)));
    assert_eq!(error.describe(), "Malformed config file: threads must not be zero");
}

#[test]
fn default_values() {
    assert_eq!(default_message_timeout(), 3);
    assert_eq!(default_recognition_config_timeout(), 3);
    assert_eq!(default_config_path(), "./ems.toml");
    assert_eq!(Cli::new(None).config, "./ems.toml");
    let config = SpeechRecognitionConfig::default();
    assert_eq!(config.language, "en-US");
    assert!(!config.profanity_filter);
    assert!(!config.punctuation);
    let copy = SpeechRecognitionConfig {
        language: String::from("fr-FR"),
        profanity_filter: true,
        punctuation: true,
    }
    .clone();
    assert_eq!(copy.language, "fr-FR");
    assert!(copy.profanity_filter);
    assert!(copy.punctuation);
}
