use vstd::prelude::*;

use flume::{Receiver, Sender};

use crate::action::MessageHandlerAction;
use crate::recognition::SpeechRecognitionRequest;
use crate::synthesis::SpeechSynthesisRequest;

verus! {

/// The sending end of a `flume` channel.
#[verifier::external_type_specification]
#[verifier::external_body]
#[verifier::reject_recursive_types(T)]
pub struct ExSender<T>(flume::Sender<T>);

/// The receiving end of a `flume` channel.
#[verifier::external_type_specification]
#[verifier::external_body]
#[verifier::reject_recursive_types(T)]
pub struct ExReceiver<T>(flume::Receiver<T>);

/// What was sent through this sender, oldest first, each with whether the channel took it in.
pub uninterp spec fn action_log(
    sender: Sender<MessageHandlerAction>,
) -> Seq<(MessageHandlerAction, bool)>;

/// How many actions the channel of this sender may hold, if there is a limit.
pub uninterp spec fn action_bound(sender: Sender<MessageHandlerAction>) -> Option<usize>;

/// The receiving ends of the channel that this sender belongs to.
pub uninterp spec fn action_receivers(
    sender: Sender<MessageHandlerAction>,
) -> Set<Receiver<MessageHandlerAction>>;

/// What was sent through this sender, oldest first, each with whether the channel took it in.
pub uninterp spec fn audio_log(
    sender: Sender<SpeechRecognitionRequest>,
) -> Seq<(SpeechRecognitionRequest, bool)>;

/// How many requests the channel of this sender may hold, if there is a limit.
pub uninterp spec fn audio_bound(sender: Sender<SpeechRecognitionRequest>) -> Option<usize>;

/// The receiving ends of the channel that this sender belongs to.
pub uninterp spec fn audio_receivers(
    sender: Sender<SpeechRecognitionRequest>,
) -> Set<Receiver<SpeechRecognitionRequest>>;

/// What was sent through this sender, oldest first, each with whether the channel took it in.
pub uninterp spec fn speech_log(
    sender: Sender<SpeechSynthesisRequest>,
) -> Seq<(SpeechSynthesisRequest, bool)>;

/// How many requests the channel of this sender may hold, if there is a limit.
pub uninterp spec fn speech_bound(sender: Sender<SpeechSynthesisRequest>) -> Option<usize>;

/// The receiving ends of the channel that this sender belongs to.
pub uninterp spec fn speech_receivers(
    sender: Sender<SpeechSynthesisRequest>,
) -> Set<Receiver<SpeechSynthesisRequest>>;

/// Calls `flume::unbounded`: a new channel without a limit, through which nothing was sent,
/// and its two ends.
#[verifier::external_body]
fn unbounded_actions() -> (ends: (Sender<MessageHandlerAction>, Receiver<MessageHandlerAction>))
    ensures
        action_log(ends.0) == (Seq::<(MessageHandlerAction, bool)>::empty()),
        action_bound(ends.0) is None,
        action_receivers(ends.0).contains(ends.1),
{
    flume::unbounded()
}

/// Calls `flume::Sender::send` on a channel without a limit, where it does not wait.
///
/// Claims that the action is noted as sent, and that it is either taken in by the channel, or handed
/// back. Which of the two depends on whether there still is a receiver, and is left open. The sender
/// stays with its channel.
#[verifier::external_body]
pub(crate) fn send_action(
    sender: &mut Sender<MessageHandlerAction>,
    action: MessageHandlerAction,
) -> (result: Result<(), MessageHandlerAction>)
    requires
        action_bound(*old(sender)) is None,
    ensures
        action_bound(*final(sender)) is None,
        action_receivers(*final(sender)) == action_receivers(*old(sender)),
        action_log(*final(sender)) == action_log(*old(sender)).push((action, result is Ok)),
        result matches Err(refused) ==> refused == action,
{
    sender.send(action).map_err(|error| error.0)
}

/// Calls `flume::unbounded`: a new channel without a limit, through which nothing was sent,
/// and its two ends.
#[verifier::external_body]
fn unbounded_audio() -> (ends: (
    Sender<SpeechRecognitionRequest>,
    Receiver<SpeechRecognitionRequest>,
))
    ensures
        audio_log(ends.0) == (Seq::<(SpeechRecognitionRequest, bool)>::empty()),
        audio_bound(ends.0) is None,
        audio_receivers(ends.0).contains(ends.1),
{
    flume::unbounded()
}

/// Calls `flume::Sender::send` on a channel without a limit, where it does not wait.
///
/// Claims that the request is noted as sent, and that it is either taken in by the channel, or handed
/// back. Which of the two depends on whether there still is a receiver, and is left open. The sender
/// stays with its channel.
#[verifier::external_body]
pub(crate) fn send_audio(
    sender: &mut Sender<SpeechRecognitionRequest>,
    request: SpeechRecognitionRequest,
) -> (result: Result<(), SpeechRecognitionRequest>)
    requires
        audio_bound(*old(sender)) is None,
    ensures
        audio_bound(*final(sender)) is None,
        audio_receivers(*final(sender)) == audio_receivers(*old(sender)),
        audio_log(*final(sender)) == audio_log(*old(sender)).push((request, result is Ok)),
        result matches Err(refused) ==> refused == request,
{
    sender.send(request).map_err(|error| error.0)
}

/// Calls `flume::unbounded`: a new channel without a limit, through which nothing was sent,
/// and its two ends.
#[verifier::external_body]
fn unbounded_speech() -> (ends: (
    Sender<SpeechSynthesisRequest>,
    Receiver<SpeechSynthesisRequest>,
))
    ensures
        speech_log(ends.0) == (Seq::<(SpeechSynthesisRequest, bool)>::empty()),
        speech_bound(ends.0) is None,
        speech_receivers(ends.0).contains(ends.1),
{
    flume::unbounded()
}

/// Calls `flume::Sender::send` on a channel without a limit, where it does not wait.
///
/// Claims that the request is noted as sent, and that it is either taken in by the channel, or handed
/// back. Which of the two depends on whether there still is a receiver, and is left open. The sender
/// stays with its channel.
#[verifier::external_body]
pub(crate) fn send_speech(
    sender: &mut Sender<SpeechSynthesisRequest>,
    request: SpeechSynthesisRequest,
) -> (result: Result<(), SpeechSynthesisRequest>)
    requires
        speech_bound(*old(sender)) is None,
    ensures
        speech_bound(*final(sender)) is None,
        speech_receivers(*final(sender)) == speech_receivers(*old(sender)),
        speech_log(*final(sender)) == speech_log(*old(sender)).push((request, result is Ok)),
        result matches Err(refused) ==> refused == request,
{
    sender.send(request).map_err(|error| error.0)
}

/// Open the channel on which a message handler gets its actions.
pub fn action_channel() -> (ends: (Sender<MessageHandlerAction>, Receiver<MessageHandlerAction>))
    ensures
        action_log(ends.0) == (Seq::<(MessageHandlerAction, bool)>::empty()),
        action_bound(ends.0) is None,
        action_receivers(ends.0).contains(ends.1),
{
    unbounded_actions()
}

/// Open the channel on which speech recognition gets its requests.
pub fn audio_channel() -> (ends: (
    Sender<SpeechRecognitionRequest>,
    Receiver<SpeechRecognitionRequest>,
))
    ensures
        audio_log(ends.0) == Seq::<(SpeechRecognitionRequest, bool)>::empty(),
        audio_bound(ends.0) is None,
        audio_receivers(ends.0).contains(ends.1),
{
    unbounded_audio()
}

/// Open the channel on which speech synthesis gets its requests.
pub fn speech_channel() -> (ends: (
    Sender<SpeechSynthesisRequest>,
    Receiver<SpeechSynthesisRequest>,
))
    ensures
        speech_log(ends.0) == Seq::<(SpeechSynthesisRequest, bool)>::empty(),
        speech_bound(ends.0) is None,
        speech_receivers(ends.0).contains(ends.1),
{
    unbounded_speech()
}

} // verus!
