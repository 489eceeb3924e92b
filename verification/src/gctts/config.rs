use vstd::prelude::*;

verus! {

/// Google Cloud Text-to-Speech configuration.
#[derive(Debug)]
pub struct GoogleCloudTextToSpeechConfig {
    /// Path to service credentials file.
    pub service_account_path: String,
}

} // verus!
