use vstd::prelude::*;

use std::time::Duration;

use crate::gcs::config::{GoogleCloudSpeechConfig, GoogleCloudSpeechConfigView};
use crate::gctts::config::GoogleCloudTextToSpeechConfig;
use crate::recognition::{RecognitionOptions, SpeechRecognitionConfig, SpeechRecognitionConfigView};
use crate::server::IoError;
use crate::time::seconds;

verus! {

/// Max amount of seconds to wait for another AudioSocket message, if the config gives none.
pub fn default_message_timeout() -> (secs: u64)
    ensures
        secs == 3,
{
    3
}

/// Max amount of seconds to wait for a speech recognition config, if the config gives none.
pub fn default_recognition_config_timeout() -> (secs: u64)
    ensures
        secs == 3,
{
    3
}

/// Path to the configuration file, if the command line gives none.
pub fn default_config_path() -> (path: String)
    ensures
        path@ == "./ems.toml"@,
{
    "./ems.toml".to_owned()
}

/// Address of a listening socket.
#[derive(Debug, Clone, Copy, PartialEq, Eq, Structural)]
pub enum SocketAddress {
    /// IPv4 address and port.
    V4 {
        /// Address as a big-endian number.
        ipv4: u32,
        /// Port number.
        port: u16,
    },

    /// IPv6 address and port.
    V6 {
        /// Address as a big-endian number.
        ipv6: u128,
        /// Port number.
        port: u16,
        /// Flow information.
        flowinfo: u32,
        /// Scope of the address.
        scope_id: u32,
    },
}

/// Preferred speech recognition driver.
#[derive(Debug, Clone, Copy, PartialEq, Eq, Structural)]
pub enum SpeechRecognitionDriver {
    /// Google Cloud Speech driver
    GoogleCloudSpeech,
}

/// Preferred speech synthesis driver.
#[derive(Debug, Clone, Copy, PartialEq, Eq, Structural)]
pub enum SpeechSynthesisDriver {
    /// Google Cloud Text-to-Speech driver
    GoogleCloudTextToSpeech,
}

/// Errors, that may happen during configuration loading.
#[derive(Debug)]
pub enum ConfigError {
    /// Config was not found using specified path (or using a default one).
    ConfigNotFound(String, IoError),

    /// File by provided path does not contain a valid configuration.
    MalformedConfig(String),
}

impl ConfigError {
    /// Text of the error.
    pub open spec fn text(self) -> Seq<char> {
        match self {
            ConfigError::ConfigNotFound(path, error) => "Config file ("@ + path@
                + ") cannot be loaded: "@ + error.description@,
            ConfigError::MalformedConfig(reason) => "Malformed config file: "@ + reason@,
        }
    }

    /// Text of the error.
    pub fn describe(&self) -> (text: String)
        ensures
            text@ == self.text(),
    {
        match self {
            ConfigError::ConfigNotFound(path, error) => "Config file (".to_owned().concat(
                path.as_str(),
            ).concat(") cannot be loaded: ").concat(error.description.as_str()),
            ConfigError::MalformedConfig(reason) => "Malformed config file: ".to_owned().concat(
                reason.as_str(),
            ),
        }
    }
}

/// EMS (External Media Server) is an AudioSocket server created for speech recognition and
/// processing.
#[derive(Debug)]
pub struct Cli {
    /// Path to EMS configuration file.
    pub config: String,
}

impl Cli {
    /// Arguments of the command line. Without a path the default one is used.
    pub fn new(config: Option<String>) -> (cli: Self)
        ensures
            cli.config@ == match config {
                Some(path) => path@,
                None => "./ems.toml"@,
            },
    {
        match config {
            Some(path) => Cli { config: path },
            None => Cli { config: default_config_path() },
        }
    }
}

/// Contents of a configuration file. Optional keys may be absent.
#[derive(Debug)]
pub struct ConfigFile {
    /// A max number of threads EMS can use in runtime.
    pub threads: Option<usize>,

    /// AudioSocket server address.
    pub audiosocket_addr: SocketAddress,

    /// WebSocket server address.
    pub websocket_addr: SocketAddress,

    /// Max amount of seconds to wait for another AudioSocket message.
    pub message_timeout: Option<u64>,

    /// Max amount of seconds to wait for handler speech recognition config.
    pub recognition_config_timeout: Option<u64>,

    /// Recognition driver to be used.
    pub recognition_driver: Option<SpeechRecognitionDriver>,

    /// Speech synthesis driver to be used.
    pub synthesis_driver: Option<SpeechSynthesisDriver>,

    /// Google Cloud Speech configuration.
    pub gcs: Option<GoogleCloudSpeechConfig>,

    /// Google Cloud Text-to-Speech configuration.
    pub gctts: Option<GoogleCloudTextToSpeechConfig>,

    /// Fallback recognition options.
    pub recognition_fallback: Option<RecognitionOptions>,

    /// Send all received audio back.
    pub loopback_audio: Option<bool>,
}

/// What became of reading the configuration file.
#[derive(Debug)]
pub enum LoadedFile {
    /// The file could not be read.
    Unreadable(IoError),

    /// The file is no configuration.
    Malformed(String),

    /// The file is a configuration.
    Parsed(ConfigFile),
}

/// Server configuration.
#[derive(Debug)]
pub struct Config {
    /// A max number of threads EMS can use in runtime.
    threads: Option<usize>,

    /// AudioSocket server address.
    audiosocket_addr: SocketAddress,

    /// WebSocket server address.
    websocket_addr: SocketAddress,

    /// Max amount of seconds to wait for another AudioSocket message.
    message_timeout: u64,

    /// Max amount of seconds to wait for handler speech recognition config.
    recognition_config_timeout: u64,

    /// Recognition driver to be used.
    recognition_driver: Option<SpeechRecognitionDriver>,

    /// Speech synthesis driver to be used.
    synthesis_driver: Option<SpeechSynthesisDriver>,

    /// Google Cloud Speech configuration.
    gcs_config: Option<GoogleCloudSpeechConfig>,

    /// Google Cloud Text-to-Speech configuration.
    gctts_config: Option<GoogleCloudTextToSpeechConfig>,

    /// Recognition config for clients that do not respond in time.
    fallback_recognition_config: Option<SpeechRecognitionConfig>,

    /// Send all received audio back.
    ///
    /// This option is used mostly for debugging reasons.
    loopback_audio: bool,
}

/// What a [`Config`] says.
pub ghost struct ConfigView {
    pub threads: Option<usize>,
    pub audiosocket_addr: SocketAddress,
    pub websocket_addr: SocketAddress,
    pub message_timeout: u64,
    pub recognition_config_timeout: u64,
    pub recognition_driver: Option<SpeechRecognitionDriver>,
    pub synthesis_driver: Option<SpeechSynthesisDriver>,
    pub gcs_config: Option<GoogleCloudSpeechConfigView>,
    pub gctts_config: Option<Seq<char>>,
    pub fallback_recognition_config: Option<SpeechRecognitionConfigView>,
    pub loopback_audio: bool,
}

/// View of an optional Google Cloud Speech config.
pub open spec fn gcs_config_view(
    config: Option<GoogleCloudSpeechConfig>,
) -> Option<GoogleCloudSpeechConfigView> {
    match config {
        Some(config) => Some(config@),
        None => None,
    }
}

/// Credentials path of an optional Google Cloud Text-to-Speech config.
pub open spec fn gctts_config_view(config: Option<GoogleCloudTextToSpeechConfig>) -> Option<
    Seq<char>,
> {
    match config {
        Some(config) => Some(config.service_account_path@),
        None => None,
    }
}

/// View of an optional speech recognition config.
pub open spec fn recognition_config_view(
    config: Option<SpeechRecognitionConfig>,
) -> Option<SpeechRecognitionConfigView> {
    match config {
        Some(config) => Some(config@),
        None => None,
    }
}

impl ConfigFile {
    /// The configuration that the file stands for.
    pub open spec fn config(self) -> ConfigView {
        ConfigView {
            threads: self.threads,
            audiosocket_addr: self.audiosocket_addr,
            websocket_addr: self.websocket_addr,
            message_timeout: match self.message_timeout {
                Some(secs) => secs,
                None => 3,
            },
            recognition_config_timeout: match self.recognition_config_timeout {
                Some(secs) => secs,
                None => 3,
            },
            recognition_driver: self.recognition_driver,
            synthesis_driver: self.synthesis_driver,
            gcs_config: gcs_config_view(self.gcs),
            gctts_config: gctts_config_view(self.gctts),
            fallback_recognition_config: match self.recognition_fallback {
                Some(options) => Some(options.config()),
                None => None,
            },
            loopback_audio: self.loopback_audio == Some(true),
        }
    }
}

impl View for Config {
    type V = ConfigView;

    closed spec fn view(&self) -> ConfigView {
        ConfigView {
            threads: self.threads,
            audiosocket_addr: self.audiosocket_addr,
            websocket_addr: self.websocket_addr,
            message_timeout: self.message_timeout,
            recognition_config_timeout: self.recognition_config_timeout,
            recognition_driver: self.recognition_driver,
            synthesis_driver: self.synthesis_driver,
            gcs_config: gcs_config_view(self.gcs_config),
            gctts_config: gctts_config_view(self.gctts_config),
            fallback_recognition_config: recognition_config_view(self.fallback_recognition_config),
            loopback_audio: self.loopback_audio,
        }
    }
}

impl Config {
    /// Make a configuration of what was read from the file that the command line names.
    ///
    /// Absent keys get their default values. There cannot be zero threads.
    pub fn try_from(cli: Cli, file: LoadedFile) -> (result: Result<Self, ConfigError>)
        ensures
            match file {
                LoadedFile::Unreadable(error) => result == Err::<Config, ConfigError>(
                    ConfigError::ConfigNotFound(cli.config, error),
                ),
                LoadedFile::Malformed(reason) => result == Err::<Config, ConfigError>(
                    ConfigError::MalformedConfig(reason),
                ),
                LoadedFile::Parsed(file) => if file.threads == Some(0usize) {
                    result matches Err(ConfigError::MalformedConfig(reason)) && reason@
                        == "threads must not be zero"@
                } else {
                    result matches Ok(config) && config@ == file.config()
                },
            },
    {
        match file {
            LoadedFile::Unreadable(error) => Err(ConfigError::ConfigNotFound(cli.config, error)),
            LoadedFile::Malformed(reason) => Err(ConfigError::MalformedConfig(reason)),
            LoadedFile::Parsed(file) => {
                if let Some(0) = file.threads {
                    return Err(ConfigError::MalformedConfig("threads must not be zero".to_owned()));
                }
                let fallback_recognition_config = match file.recognition_fallback {
                    Some(options) => Some(SpeechRecognitionConfig::from_options(options)),
                    None => None,
                };
                Ok(
                    Config {
                        threads: file.threads,
                        audiosocket_addr: file.audiosocket_addr,
                        websocket_addr: file.websocket_addr,
                        message_timeout: file.message_timeout.unwrap_or(default_message_timeout()),
                        recognition_config_timeout: file.recognition_config_timeout.unwrap_or(
                            default_recognition_config_timeout(),
                        ),
                        recognition_driver: file.recognition_driver,
                        synthesis_driver: file.synthesis_driver,
                        gcs_config: file.gcs,
                        gctts_config: file.gctts,
                        fallback_recognition_config,
                        loopback_audio: file.loopback_audio.unwrap_or(false),
                    },
                )
            },
        }
    }

    /// Get max number of runtime threads.
    ///
    /// [`None`], if all CPU threads may be used.
    pub fn threads(&self) -> (threads: Option<usize>)
        ensures
            threads == self@.threads,
    {
        self.threads
    }

    /// Get configured AudioSocket server address.
    pub fn audiosocket_addr(&self) -> (addr: &SocketAddress)
        ensures
            *addr == self@.audiosocket_addr,
    {
        &self.audiosocket_addr
    }

    /// Get configured WebSocket server address.
    pub fn websocket_addr(&self) -> (addr: &SocketAddress)
        ensures
            *addr == self@.websocket_addr,
    {
        &self.websocket_addr
    }

    /// Get max await time for next AudioSocket message.
    pub fn message_timeout(&self) -> (timeout: Duration)
        ensures
            timeout == seconds(self@.message_timeout),
    {
        Duration::from_secs(self.message_timeout)
    }

    /// Get max await time for recognition config response.
    pub fn recognition_config_timeout(&self) -> (timeout: Duration)
        ensures
            timeout == seconds(self@.recognition_config_timeout),
    {
        Duration::from_secs(self.recognition_config_timeout)
    }

    /// Get configured speech recognition driver.
    ///
    /// [`None`], if speech recognition is disabled.
    pub fn recognition_driver(&self) -> (driver: &Option<SpeechRecognitionDriver>)
        ensures
            *driver == self@.recognition_driver,
    {
        &self.recognition_driver
    }

    /// Get configured speech synthesis driver.
    ///
    /// [`None`], if speech synthesis is disabled.
    pub fn synthesis_driver(&self) -> (driver: &Option<SpeechSynthesisDriver>)
        ensures
            *driver == self@.synthesis_driver,
    {
        &self.synthesis_driver
    }

    /// Get Google Cloud Speech configuration.
    ///
    /// Note that driver selection config, and the driver config itself are separate entities. It is
    /// a normal situation, where `google` driver was selected, but no `google` config was found.
    pub fn gcs_config(&self) -> (config: &Option<GoogleCloudSpeechConfig>)
        ensures
            gcs_config_view(*config) == self@.gcs_config,
    {
        &self.gcs_config
    }

    /// Get Google Cloud Text-to-Speech configuration.
    pub fn gctts_config(&self) -> (config: &Option<GoogleCloudTextToSpeechConfig>)
        ensures
            gctts_config_view(*config) == self@.gctts_config,
    {
        &self.gctts_config
    }

    /// Get fallback recognition config, in case if client doesn't respond fast enough.
    pub fn fallback_recognition_config(&self) -> (config: &Option<SpeechRecognitionConfig>)
        ensures
            recognition_config_view(*config) == self@.fallback_recognition_config,
    {
        &self.fallback_recognition_config
    }

    /// Get audio loopback configuration setting.
    pub fn loopback_audio(&self) -> (loopback: bool)
        ensures
            loopback == self@.loopback_audio,
    {
        self.loopback_audio
    }
}

} // verus!
