use vstd::prelude::*;

use crate::action::{MessageHandlerAction, MessageHandlerActionView};
use crate::db::HandlerDatabase;

verus! {

/// A floating-point number of a request, held as its IEEE 754 double-precision bits.
///
/// Numbers are handed on to the synthesis provider as they are.
#[derive(Debug, Clone, Copy, PartialEq, Eq, Structural)]
pub struct NumberBits {
    /// Bits of the number.
    pub bits: u64,
}

/// Generic speech synthesis request, containing UUID of handler and desirable text.
#[derive(Debug)]
pub struct SpeechSynthesisRequest {
    /// Handler UUID, that will play audio after speech synthesis process.
    pub id: u128,

    /// Text to synthesize, possibly with SSML markup.
    pub ssml: String,

    /// Language and region of of the voice expressed as a BCP-47 language tag.
    pub language_code: String,

    /// Preferred voice gender.
    pub gender: Option<SynthesisVoiceGender>,

    /// Preferred speaking rate.
    pub speaking_rate: Option<NumberBits>,

    /// Preferred pitch.
    pub pitch: Option<NumberBits>,
}

/// What a [`SpeechSynthesisRequest`] says.
pub ghost struct SpeechSynthesisRequestView {
    pub id: u128,
    pub ssml: Seq<char>,
    pub language_code: Seq<char>,
    pub gender: Option<SynthesisVoiceGender>,
    pub speaking_rate: Option<NumberBits>,
    pub pitch: Option<NumberBits>,
}

impl View for SpeechSynthesisRequest {
    type V = SpeechSynthesisRequestView;

    open spec fn view(&self) -> SpeechSynthesisRequestView {
        SpeechSynthesisRequestView {
            id: self.id,
            ssml: self.ssml@,
            language_code: self.language_code@,
            gender: self.gender,
            speaking_rate: self.speaking_rate,
            pitch: self.pitch,
        }
    }
}

/// Gender of speech synthesis voice.
///
/// Consult <https://www.w3.org/TR/speech-synthesis11/#edef_voice> for additional info.
/// If used in [`Option`] context, [`SynthesisVoiceGender::Any`] should be used as a fallback.
#[derive(Debug, Clone, Copy, PartialEq, Eq, Structural)]
pub enum SynthesisVoiceGender {
    /// No preference.
    Any,

    /// A male voice.
    Male,

    /// A female voice.
    Female,

    /// A gender-neutral voice.
    Neutral,
}

impl SynthesisVoiceGender {
    /// The gender that a name stands for.
    pub open spec fn of_name(name: Seq<char>) -> SynthesisVoiceGender {
        if name == "male"@ {
            SynthesisVoiceGender::Male
        } else if name == "female"@ {
            SynthesisVoiceGender::Female
        } else if name == "neutral"@ {
            SynthesisVoiceGender::Neutral
        } else {
            SynthesisVoiceGender::Any
        }
    }
}

impl From<&str> for SynthesisVoiceGender {
    fn from(gender: &str) -> (result: Self) {
        let name = gender.to_owned();
        if name == "male".to_owned() {
            SynthesisVoiceGender::Male
        } else if name == "female".to_owned() {
            SynthesisVoiceGender::Female
        } else if name == "neutral".to_owned() {
            SynthesisVoiceGender::Neutral
        } else {
            SynthesisVoiceGender::Any
        }
    }
}

impl vstd::std_specs::convert::FromSpecImpl<&str> for SynthesisVoiceGender {
    open spec fn obeys_from_spec() -> bool {
        true
    }

    open spec fn from_spec(gender: &str) -> SynthesisVoiceGender {
        SynthesisVoiceGender::of_name(gender@)
    }
}

/// Result of speech synthesis. Contains UUID of handler and synthesized audio.
///
/// [`SpeechSynthesisResponse`] does not validate audio in any way, so checking provided data
/// validity is up to user of this struct.
#[derive(Debug)]
pub struct SpeechSynthesisResponse {
    /// Handler UUID, that will play synthesized audio.
    pub id: u128,

    /// Result of speech synthesis process.
    pub audio: Vec<u8>,
}

/// Sends the results of speech synthesis to the handlers that asked for them.
#[derive(Debug)]
pub struct SpeechSynthesisSink {}

impl SpeechSynthesisSink {
    /// Create a sink.
    pub fn new() -> (sink: Self) {
        SpeechSynthesisSink {  }
    }

    /// Take in a result: its audio is sent to the handler of the request, to be played.
    ///
    /// A result for a handler that is gone is dropped.
    pub fn start_send(&self, database: &mut HandlerDatabase, response: SpeechSynthesisResponse)
        requires
            old(database).wf(),
        ensures
            final(database).wf(),
            old(database)@.offered(
                response.id,
                MessageHandlerActionView::Play(response.audio@),
                final(database)@,
            ),
    {
        database.send(response.id, MessageHandlerAction::Play(response.audio));
    }
}

} // verus!
