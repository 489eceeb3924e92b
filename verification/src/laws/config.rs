use vstd::prelude::*;

use std::time::Duration;

use crate::config::{
    default_config_path, default_message_timeout, default_recognition_config_timeout, Cli, Config,
    ConfigError, ConfigFile, LoadedFile, SocketAddress, SpeechRecognitionDriver,
    SpeechSynthesisDriver,
};
use crate::gcs::config::GoogleCloudSpeechConfig;
use crate::gctts::config::GoogleCloudTextToSpeechConfig;
use crate::recognition::{RecognitionOptions, SpeechRecognitionConfig};
use crate::time::seconds;

verus! {

/// Does a config say what options ask for? What is not given is disabled.
pub open spec fn says(config: SpeechRecognitionConfig, options: RecognitionOptions) -> bool {
    &&& config.language@ == options.language@
    &&& config.profanity_filter <==> options.profanity_filter == Some(true)
    &&& config.punctuation <==> options.punctuation == Some(true)
}

/// Do two configs say the same?
pub open spec fn same_config(
    config: SpeechRecognitionConfig,
    other: SpeechRecognitionConfig,
) -> bool {
    &&& config.language@ == other.language@
    &&& config.profanity_filter == other.profanity_filter
    &&& config.punctuation == other.punctuation
}

/// A file gives a config exactly if it could be read, is well-formed, and does not ask for zero
/// threads. Otherwise the error says which of these has failed, and of which file.
pub proof fn config_is_owed(cli: Cli, file: LoadedFile, result: Result<Config, ConfigError>)
    requires
        call_ensures(Config::try_from, (cli, file), result),
    ensures
        match file {
            LoadedFile::Unreadable(error) => result == Err::<Config, ConfigError>(
                ConfigError::ConfigNotFound(cli.config, error),
            ),
            LoadedFile::Malformed(reason) => result == Err::<Config, ConfigError>(
                ConfigError::MalformedConfig(reason),
            ),
            LoadedFile::Parsed(file) => if file.threads == Some(0usize) {
                result matches Err(ConfigError::MalformedConfig(reason)) && reason@
                    == "threads must not be zero"@
            } else {
                result is Ok
            },
        },
{
}

/// Every key of a file is told by the getter of the config made of it, and an absent key has its
/// default: three seconds for a timeout, off for the loopback, nothing for all others.
pub proof fn keys_are_told(
    cli: Cli,
    file: ConfigFile,
    config: Config,
    threads: Option<usize>,
    addresses: (&SocketAddress, &SocketAddress),
    timeouts: (Duration, Duration),
    recognition_driver: &Option<SpeechRecognitionDriver>,
    synthesis_driver: &Option<SpeechSynthesisDriver>,
    loopback_audio: bool,
)
    requires
        call_ensures(Config::try_from, (cli, LoadedFile::Parsed(file)), Ok(config)),
        call_ensures(Config::threads, (&config,), threads),
        call_ensures(Config::audiosocket_addr, (&config,), addresses.0),
        call_ensures(Config::websocket_addr, (&config,), addresses.1),
        call_ensures(Config::message_timeout, (&config,), timeouts.0),
        call_ensures(Config::recognition_config_timeout, (&config,), timeouts.1),
        call_ensures(Config::recognition_driver, (&config,), recognition_driver),
        call_ensures(Config::synthesis_driver, (&config,), synthesis_driver),
        call_ensures(Config::loopback_audio, (&config,), loopback_audio),
    ensures
        threads == file.threads,
        *addresses.0 == file.audiosocket_addr,
        *addresses.1 == file.websocket_addr,
        file.message_timeout matches Some(secs) ==> timeouts.0 == seconds(secs),
        file.message_timeout is None ==> timeouts.0 == seconds(3),
        file.recognition_config_timeout matches Some(secs) ==> timeouts.1 == seconds(secs),
        file.recognition_config_timeout is None ==> timeouts.1 == seconds(3),
        *recognition_driver == file.recognition_driver,
        *synthesis_driver == file.synthesis_driver,
        loopback_audio <==> file.loopback_audio == Some(true),
{
}

/// The settings of a file are told by the getters of the config made of it.
pub proof fn settings_are_told(
    cli: Cli,
    file: ConfigFile,
    config: Config,
    gcs: &Option<GoogleCloudSpeechConfig>,
    gctts: &Option<GoogleCloudTextToSpeechConfig>,
    fallback: &Option<SpeechRecognitionConfig>,
)
    requires
        call_ensures(Config::try_from, (cli, LoadedFile::Parsed(file)), Ok(config)),
        call_ensures(Config::gcs_config, (&config,), gcs),
        call_ensures(Config::gctts_config, (&config,), gctts),
        call_ensures(Config::fallback_recognition_config, (&config,), fallback),
    ensures
        match (file.gcs, *gcs) {
            (Some(given), Some(told)) => {
                &&& told.service_account_path@ == given.service_account_path@
                &&& told.max_await_time == given.max_await_time
            },
            (None, None) => true,
            _ => false,
        },
        match (file.gctts, *gctts) {
            (Some(given), Some(told)) => told.service_account_path@ == given.service_account_path@,
            (None, None) => true,
            _ => false,
        },
        match (file.recognition_fallback, *fallback) {
            (Some(given), Some(told)) => says(told, given),
            (None, None) => true,
            _ => false,
        },
{
}

/// A path on the command line is the one that is used, and `./ems.toml` without one.
pub proof fn path_is_used(path: String, given: Cli, absent: Cli, default: String)
    requires
        call_ensures(Cli::new, (Some(path),), given),
        call_ensures(Cli::new, (None::<String>,), absent),
        call_ensures(default_config_path, (), default),
    ensures
        given.config@ == path@,
        absent.config@ == "./ems.toml"@,
        absent.config@ == default@,
{
}

/// The timeouts of a file that gives none are the defaults.
pub proof fn default_timeouts(
    cli: Cli,
    file: ConfigFile,
    secs: (u64, u64),
    config: Config,
    timeouts: (Duration, Duration),
)
    requires
        call_ensures(default_message_timeout, (), secs.0),
        call_ensures(default_recognition_config_timeout, (), secs.1),
        file.message_timeout is None,
        file.recognition_config_timeout is None,
        call_ensures(Config::try_from, (cli, LoadedFile::Parsed(file)), Ok(config)),
        call_ensures(Config::message_timeout, (&config,), timeouts.0),
        call_ensures(Config::recognition_config_timeout, (&config,), timeouts.1),
    ensures
        secs == (3u64, 3u64),
        timeouts == (seconds(secs.0), seconds(secs.1)),
{
}

/// The text of a config error names the file and tells the reason in full.
pub proof fn config_error_texts(error: ConfigError, text: String)
    requires
        call_ensures(ConfigError::describe, (&error,), text),
    ensures
        text@ == match error {
            ConfigError::ConfigNotFound(path, error) => "Config file ("@ + path@
                + ") cannot be loaded: "@ + error.description@,
            ConfigError::MalformedConfig(reason) => "Malformed config file: "@ + reason@,
        },
{
}

/// A config made of options says what they ask for, and a copy of a config says the same as it.
/// Nobody's options make the config for English without a filter and without punctuation.
pub proof fn recognition_configs(
    options: RecognitionOptions,
    made: SpeechRecognitionConfig,
    config: SpeechRecognitionConfig,
    copy: SpeechRecognitionConfig,
    default: SpeechRecognitionConfig,
)
    requires
        call_ensures(SpeechRecognitionConfig::from_options, (options,), made),
        call_ensures(<SpeechRecognitionConfig as Clone>::clone, (&config,), copy),
        call_ensures(<SpeechRecognitionConfig as Default>::default, (), default),
    ensures
        says(made, options),
        same_config(copy, config),
        default.language@ == "en-US"@,
        !default.profanity_filter,
        !default.punctuation,
{
}

} // verus!
