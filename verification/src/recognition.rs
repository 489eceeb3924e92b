use vstd::prelude::*;

use crate::config::Config;
use crate::db::HandlerDatabase;

verus! {

/// Speech recognition request, that contains audio to be recognized.
///
/// Audio inside may be any byte sequence, thus validation of audio is left for user of this struct.
#[derive(Debug)]
pub struct SpeechRecognitionRequest {
    /// Unknown audio byte sequence.
    pub audio: Vec<u8>,
}

/// Result of speech recognition. Contains audio transcription.
#[derive(Debug)]
pub struct SpeechRecognitionResponse {
    /// The recognized speech.
    pub transcription: String,
}

/// Speech recognition options, as a client or the configuration file gives them.
#[derive(Debug)]
pub struct RecognitionOptions {
    /// Language that is being recognized.
    pub language: String,

    /// Enable profanity filter? Disabled, if not given.
    pub profanity_filter: Option<bool>,

    /// Enable punctuation guessing? Disabled, if not given.
    pub punctuation: Option<bool>,
}

/// Speech recognition config of one call.
///
/// Unlike speech synthesis service, speech recognition is created for each new handler, thus all
/// configuration is done once per initialization.
#[derive(Debug)]
pub struct SpeechRecognitionConfig {
    /// Language that is being recognized.
    pub language: String,

    /// Enable profanity filter (if provider supports it)?
    pub profanity_filter: bool,

    /// Enable punctuation guessing (if provider supports it)?
    pub punctuation: bool,
}

/// What a [`SpeechRecognitionConfig`] says.
pub ghost struct SpeechRecognitionConfigView {
    pub language: Seq<char>,
    pub profanity_filter: bool,
    pub punctuation: bool,
}

impl View for SpeechRecognitionConfig {
    type V = SpeechRecognitionConfigView;

    open spec fn view(&self) -> SpeechRecognitionConfigView {
        SpeechRecognitionConfigView {
            language: self.language@,
            profanity_filter: self.profanity_filter,
            punctuation: self.punctuation,
        }
    }
}

impl RecognitionOptions {
    /// The config that the options ask for.
    pub open spec fn config(self) -> SpeechRecognitionConfigView {
        SpeechRecognitionConfigView {
            language: self.language@,
            profanity_filter: self.profanity_filter == Some(true),
            punctuation: self.punctuation == Some(true),
        }
    }
}

/// The config that is used if nobody gives one.
pub open spec fn default_recognition_config() -> SpeechRecognitionConfigView {
    SpeechRecognitionConfigView {
        language: "en-US"@,
        profanity_filter: false,
        punctuation: false,
    }
}

impl SpeechRecognitionConfig {
    /// Create a config from options. An option that is not given is disabled.
    pub fn from_options(options: RecognitionOptions) -> (config: Self)
        ensures
            config@ == options.config(),
    {
        SpeechRecognitionConfig {
            language: options.language,
            profanity_filter: options.profanity_filter.unwrap_or(false),
            punctuation: options.punctuation.unwrap_or(false),
        }
    }
}

impl Clone for SpeechRecognitionConfig {
    fn clone(&self) -> (config: Self)
        ensures
            config@ == self@,
    {
        SpeechRecognitionConfig {
            language: self.language.clone(),
            profanity_filter: self.profanity_filter,
            punctuation: self.punctuation,
        }
    }
}

impl Default for SpeechRecognitionConfig {
    fn default() -> (config: Self)
        ensures
            config@ == default_recognition_config(),
    {
        SpeechRecognitionConfig {
            language: "en-US".to_owned(),
            profanity_filter: false,
            punctuation: false,
        }
    }
}

/// Config of a speech recognition service: [`application config`] and the config of the call.
///
/// [`application config`]: Config
pub struct SpeechRecognitionServiceConfig<'c> {
    /// Application configuration.
    pub application_config: &'c Config,

    /// Speech recognition config of the call.
    pub recognition_config: SpeechRecognitionConfig,
}

/// Puts the results of speech recognition of one call into the database.
#[derive(Debug)]
pub struct SpeechRecognitionSink {
    id: u128,
}

impl SpeechRecognitionSink {
    /// Identifier of the call.
    pub closed spec fn id(self) -> u128 {
        self.id
    }

    /// Create a sink for the results of a call.
    pub fn new(id: u128) -> (sink: Self)
        ensures
            sink.id() == id,
    {
        SpeechRecognitionSink { id }
    }

    /// Take in a result: its transcription is added to the database under the call of the sink.
    pub fn start_send(&self, database: &mut HandlerDatabase, response: SpeechRecognitionResponse)
        requires
            old(database).wf(),
        ensures
            final(database).wf(),
            final(database)@ == old(database)@.with_transcription(
                self.id(),
                response.transcription@,
            ),
    {
        database.add_transcription(self.id, response.transcription);
    }
}

} // verus!
