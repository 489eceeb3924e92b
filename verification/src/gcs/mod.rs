/// Google Cloud Speech configuration.
pub mod config;

/// Max await time between audio packages.
pub mod await_time;

/// Messages of the Google Cloud Speech API.
pub mod types;

/// Implementation of recognition driver for GCS.
pub mod driver;

pub use config::GoogleCloudSpeechConfig;
pub use driver::{CloudSpeechError, GoogleCloudSpeech};
