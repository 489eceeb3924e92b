/// Google Cloud Text-to-Speech configuration.
pub mod config;

/// Messages of the Google Cloud Text-to-Speech API.
pub mod types;

/// Implementation of speech synthesis driver for Google Cloud Text-to-Speech.
pub mod driver;

pub use config::GoogleCloudTextToSpeechConfig;
pub use driver::{CloudTextToSpeechError, GoogleCloudTextToSpeech};
