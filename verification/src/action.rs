use vstd::prelude::*;

use crate::recognition::{SpeechRecognitionConfig, SpeechRecognitionConfigView};

verus! {

/// Actions, that can be sent to a message handler, including call hangup and audio playback.
#[derive(Debug)]
pub enum MessageHandlerAction {
    /// Terminate connection.
    Hangup,

    /// Play audio on channel.
    Play(Vec<u8>),

    /// Provide speech recognition config to handler
    RecognitionConfig(SpeechRecognitionConfig),
}

/// What a [`MessageHandlerAction`] says.
pub ghost enum MessageHandlerActionView {
    Hangup,
    Play(Seq<u8>),
    RecognitionConfig(SpeechRecognitionConfigView),
}

impl View for MessageHandlerAction {
    type V = MessageHandlerActionView;

    open spec fn view(&self) -> MessageHandlerActionView {
        match *self {
            MessageHandlerAction::Hangup => MessageHandlerActionView::Hangup,
            MessageHandlerAction::Play(audio) => MessageHandlerActionView::Play(audio@),
            MessageHandlerAction::RecognitionConfig(config) =>
                MessageHandlerActionView::RecognitionConfig(config@),
        }
    }
}

} // verus!
