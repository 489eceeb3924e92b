use vstd::prelude::*;

verus! {

/// Google Cloud Speech-to-Text configuration.
#[derive(Debug)]
pub struct GoogleCloudSpeechConfig {
    /// Path to service credentials file.
    pub service_account_path: String,

    /// Max await time in seconds between AudioSocket audio messages.
    ///
    /// Valid values are `0..=10`.
    pub max_await_time: Option<u64>,
}

/// What a [`GoogleCloudSpeechConfig`] says.
pub ghost struct GoogleCloudSpeechConfigView {
    pub service_account_path: Seq<char>,
    pub max_await_time: Option<u64>,
}

impl View for GoogleCloudSpeechConfig {
    type V = GoogleCloudSpeechConfigView;

    open spec fn view(&self) -> GoogleCloudSpeechConfigView {
        GoogleCloudSpeechConfigView {
            service_account_path: self.service_account_path@,
            max_await_time: self.max_await_time,
        }
    }
}

} // verus!
