use vstd::prelude::*;

use crate::synthesis::{NumberBits, SynthesisVoiceGender};

verus! {

/// Gender of the voice as described in SSML voice element.
#[derive(Debug, Clone, Copy, PartialEq, Eq, Structural)]
pub enum SsmlVoiceGender {
    /// An unspecified gender.
    Unspecified,

    /// A male voice.
    Male,

    /// A female voice.
    Female,

    /// A gender-neutral voice.
    Neutral,
}

impl From<SynthesisVoiceGender> for SsmlVoiceGender {
    fn from(voice: SynthesisVoiceGender) -> (gender: Self) {
        match voice {
            SynthesisVoiceGender::Any => SsmlVoiceGender::Unspecified,
            SynthesisVoiceGender::Male => SsmlVoiceGender::Male,
            SynthesisVoiceGender::Female => SsmlVoiceGender::Female,
            SynthesisVoiceGender::Neutral => SsmlVoiceGender::Neutral,
        }
    }
}

impl vstd::std_specs::convert::FromSpecImpl<SynthesisVoiceGender> for SsmlVoiceGender {
    open spec fn obeys_from_spec() -> bool {
        true
    }

    open spec fn from_spec(voice: SynthesisVoiceGender) -> SsmlVoiceGender {
        match voice {
            SynthesisVoiceGender::Any => SsmlVoiceGender::Unspecified,
            SynthesisVoiceGender::Male => SsmlVoiceGender::Male,
            SynthesisVoiceGender::Female => SsmlVoiceGender::Female,
            SynthesisVoiceGender::Neutral => SsmlVoiceGender::Neutral,
        }
    }
}

/// Encoding of synthesized audio.
#[derive(Debug, Clone, Copy, PartialEq, Eq, Structural)]
pub enum AudioEncoding {
    /// Uncompressed 16-bit signed little-endian samples (Linear PCM).
    Linear16,
}

/// Which voice has to be used.
#[derive(Debug)]
pub struct VoiceSelectionParams {
    /// The language of the voice as a BCP-47 language tag.
    pub language_code: String,

    /// The name of the voice. If empty, the service chooses one.
    pub name: String,

    /// Preferred gender of the voice.
    pub ssml_gender: SsmlVoiceGender,
}

/// How audio has to be synthesized.
#[derive(Debug)]
pub struct AudioConfig {
    /// Encoding of the audio.
    pub audio_encoding: AudioEncoding,

    /// Speaking rate, where 1.0 is the native speed of the voice.
    pub speaking_rate: NumberBits,

    /// Speaking pitch, in semitones from the original pitch.
    pub pitch: NumberBits,

    /// Volume gain in decibels.
    pub volume_gain_db: NumberBits,

    /// Sample rate of the audio.
    pub sample_rate_hertz: u16,

    /// Effects that are applied on the audio, one after another.
    pub effects_profile_id: Vec<String>,
}

/// The message that asks for speech synthesis.
#[derive(Debug)]
pub struct SynthesizeSpeechRequest {
    /// Text to synthesize, as an SSML document.
    pub ssml: String,

    /// Which voice has to be used.
    pub voice: VoiceSelectionParams,

    /// How audio has to be synthesized.
    pub audio_config: AudioConfig,
}

} // verus!
