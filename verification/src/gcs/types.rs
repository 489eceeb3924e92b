use vstd::prelude::*;

verus! {

/// Sample rate in Hertz of the audio data sent in all [`RecognitionAudio`] messages.
///
/// Valid values are: 8000-48000. 16000 is optimal.
/// For best results, set the sampling rate of the audio source to 16000 Hz.
/// If that's not possible, use the native sample rate of the audio source (instead of re-sampling).
/// This field is optional for FLAC and WAV audio files, but is required for all other audio formats.
/// For details, see [`AudioEncoding`].
#[derive(Debug)]
pub struct SampleRateHertz(u16);

impl SampleRateHertz {
    /// The sample rate.
    pub closed spec fn value(self) -> u16 {
        self.0
    }

    #[verifier::type_invariant]
    spec fn is_valid(self) -> bool {
        8000 <= self.0 <= 48000
    }

    /// Create a sample rate. Returns [`None`] if it is not a valid one.
    pub fn new(value: u16) -> (rate: Option<Self>)
        ensures
            match rate {
                Some(rate) => 8000 <= value <= 48000 && rate.value() == value,
                None => !(8000 <= value <= 48000),
            },
    {
        if 8000 <= value && value <= 48000 {
            Some(SampleRateHertz(value))
        } else {
            None
        }
    }

    /// The sample rate.
    pub fn get(&self) -> (value: u16)
        ensures
            value == self.value(),
            8000 <= value <= 48000,
    {
        proof {
            use_type_invariant(self);
        }
        self.0
    }
}

/// The number of channels in the input audio data.
///
/// ONLY set this for MULTI-CHANNEL recognition.
/// Valid values for LINEAR16 and FLAC are 1-8.
/// Valid values for OGG_OPUS are '1'-'254'.
/// Valid value for MULAW, AMR, AMR_WB and SPEEX_WITH_HEADER_BYTE is only 1.
/// If 0 or omitted, defaults to one channel (mono).
#[derive(Debug)]
pub struct AudioChannelCount(u8);

impl AudioChannelCount {
    /// The number of channels.
    pub closed spec fn value(self) -> u8 {
        self.0
    }

    #[verifier::type_invariant]
    spec fn is_valid(self) -> bool {
        1 <= self.0 <= 254
    }

    /// Create a number of channels. Returns [`None`] if audio of this encoding cannot have it.
    pub fn new(value: u8, encoding: AudioEncoding) -> (count: Option<Self>)
        ensures
            match count {
                Some(count) => 1 <= value <= encoding.max_channels() && count.value() == value,
                None => !(1 <= value <= encoding.max_channels()),
            },
    {
        let valid = match encoding {
            AudioEncoding::Linear16 | AudioEncoding::Flac => 1 <= value && value <= 8,
            AudioEncoding::OggOpus => 1 <= value && value <= 254,
            AudioEncoding::Mulaw
            | AudioEncoding::Amr
            | AudioEncoding::AmrWb
            | AudioEncoding::SpeexWithHeaderByte => value == 1,
            AudioEncoding::Unspecified => false,
        };
        if valid {
            Some(AudioChannelCount(value))
        } else {
            None
        }
    }

    /// The number of channels.
    pub fn get(&self) -> (value: u8)
        ensures
            value == self.value(),
            1 <= value <= 254,
    {
        proof {
            use_type_invariant(self);
        }
        self.0
    }
}

/// Maximum number of recognition hypotheses to be returned.
///
/// Specifically, the maximum number of [`SpeechRecognitionAlternative`] messages within each [`SpeechRecognitionResult`].
/// The server may return fewer than max_alternatives.
/// Valid values are 0-30. A value of 0 or 1 will return a maximum of one. If omitted, will return a maximum of one.
#[derive(Debug)]
pub struct MaxAlternatives(u8);

impl MaxAlternatives {
    /// The number of alternatives.
    pub closed spec fn value(self) -> u8 {
        self.0
    }

    #[verifier::type_invariant]
    spec fn is_valid(self) -> bool {
        self.0 <= 30
    }

    /// Create a number of alternatives. Returns [`None`] if it is not a valid one.
    pub fn new(value: u8) -> (alternatives: Option<Self>)
        ensures
            match alternatives {
                Some(alternatives) => value <= 30 && alternatives.value() == value,
                None => value > 30,
            },
    {
        if value <= 30 {
            Some(MaxAlternatives(value))
        } else {
            None
        }
    }

    /// The number of alternatives.
    pub fn get(&self) -> (value: u8)
        ensures
            value == self.value(),
            value <= 30,
    {
        proof {
            use_type_invariant(self);
        }
        self.0
    }
}

/// Provides "hints" to the speech recognizer to favor specific words and phrases in the results.
#[derive(Debug)]
pub struct SpeechContext {
    /// The words and phrases.
    pub phrases: Vec<String>,
}

/// Encoding of audio data sent in all [`RecognitionAudio`] messages.
#[derive(Debug, Clone, Copy, PartialEq, Eq, Structural)]
pub enum AudioEncoding {
    /// Not specified.
    Unspecified,

    /// Uncompressed 16-bit signed little-endian samples (Linear PCM).
    Linear16,

    /// FLAC (Free Lossless Audio Codec) is the recommended encoding because it is lossless--therefore recognition
    /// is not compromised--and requires only about half the bandwidth of LINEAR16.
    /// FLAC stream encoding supports 16-bit and 24-bit samples, however, not all fields in STREAMINFO are supported.
    Flac,

    /// 8-bit samples that compand 14-bit audio samples using G.711 PCMU/mu-law.
    Mulaw,

    /// Adaptive Multi-Rate Narrowband codec. sampleRateHertz must be 8000.
    Amr,

    /// Adaptive Multi-Rate Wideband codec. sampleRateHertz must be 16000.
    AmrWb,

    /// Opus encoded audio frames in Ogg container (OggOpus).
    /// sampleRateHertz must be one of 8000, 12000, 16000, 24000, or 48000.
    OggOpus,

    /// Although the use of lossy encodings is not recommended, if a very low bitrate encoding is required, OGG_OPUS is highly preferred over Speex encoding.
    /// The Speex encoding supported by Cloud Speech API has a header byte in each block, as in MIME type audio/x-speex-with-header-byte.
    /// It is a variant of the RTP Speex encoding defined in RFC 5574.
    /// The stream is a sequence of blocks, one block per RTP packet.
    /// Each block starts with a byte containing the length of the block, in bytes, followed by one or more frames of Speex data,
    /// padded to an integral number of bytes (octets) as specified in RFC 5574.
    /// In other words, each RTP header is replaced with a single byte containing the block length.
    /// Only Speex wideband is supported. sampleRateHertz must be 16000.
    SpeexWithHeaderByte,
}

impl AudioEncoding {
    /// How many channels audio of this encoding can have.
    pub open spec fn max_channels(self) -> u8 {
        match self {
            AudioEncoding::Unspecified => 0,
            AudioEncoding::Linear16 => 8,
            AudioEncoding::Flac => 8,
            AudioEncoding::Mulaw => 1,
            AudioEncoding::Amr => 1,
            AudioEncoding::AmrWb => 1,
            AudioEncoding::OggOpus => 254,
            AudioEncoding::SpeexWithHeaderByte => 1,
        }
    }
}

/// Provides information to the recognizer that specifies how to process the request.
#[derive(Debug)]
pub struct RecognitionConfig {
    /// See [`AudioEncoding`].
    pub encoding: AudioEncoding,

    /// See [`SampleRateHertz`].
    pub sample_rate_hertz: SampleRateHertz,

    /// See [`AudioChannelCount`].
    pub audio_channel_count: AudioChannelCount,

    /// This needs to be set to true explicitly and `audio_channel_count > 1` to get each channel recognized separately.
    /// The recognition result will contain a `channel_tag` field to state which channel that result belongs to.
    /// If this is not true, we will only recognize the first channel.
    /// The request is billed cumulatively for all channels recognized: `audio_channel_count` multiplied by the length of the audio.
    pub enable_separate_recognition_per_channel: bool,

    /// The language of the supplied audio as a BCP-47 language tag.
    ///
    /// Example: "en-US".
    pub language_code: String,

    /// See [`MaxAlternatives`].
    pub max_alternatives: MaxAlternatives,

    /// If set to true, the server will attempt to filter out profanities.
    pub profanity_filter: bool,

    /// See [`SpeechContext`].
    pub speech_contexts: Vec<SpeechContext>,

    /// If set to true, the top result comes with the time offsets of its words.
    pub enable_word_time_offsets: bool,

    /// If set to true, the server will add punctuation to the results.
    pub enable_automatic_punctuation: bool,

    /// Which model has to be selected for the request.
    pub model: String,

    /// If set to true, an enhanced variant of the model is used.
    pub use_enhanced: bool,
}

/// Contains audio data in the encoding specified in the [`RecognitionConfig`].
///
/// Note that only byte representation is supported.
#[derive(Debug)]
pub struct RecognitionAudio<'b> {
    /// The audio.
    pub content: &'b [u8],
}

/// The top-level message sent by the client for the Recognize method.
#[derive(Debug)]
pub struct RecognitionRequest<'b> {
    /// How to process the request.
    pub config: RecognitionConfig,

    /// The audio.
    pub audio: RecognitionAudio<'b>,
}

/// Provides information to the recognizer that specifies how to process the request.
#[derive(Debug)]
pub struct StreamingRecognitionConfig {
    /// Provides information to the recognizer that specifies how to process the request.
    pub config: RecognitionConfig,

    /// If false or omitted, the recognizer will perform continuous recognition (continuing to wait for and process audio even if the user pauses speaking)
    /// until the client closes the input stream (gRPC API) or until the maximum time limit has been reached.
    /// May return multiple [`StreamingRecognitionResult`] with the `is_final` flag set to true.
    /// If true, the recognizer will detect a single spoken utterance.
    /// When it detects that the user has paused or stopped speaking, it will return an `END_OF_SINGLE_UTTERANCE` event and cease recognition.
    /// It will return no more than one [`StreamingRecognitionResult`] with the `is_final` flag set to true.
    pub single_utterance: bool,

    /// If true, interim results (tentative hypotheses) may be returned as they become available (these interim results are indicated with the `is_final=false` flag).
    /// If false or omitted, only `is_final=true` result(s) are returned.
    pub interim_results: bool,
}

/// Content of a [`StreamingRecognizeRequest`].
#[derive(Debug)]
pub enum StreamingRequest {
    /// How to process the audio.
    StreamingConfig(StreamingRecognitionConfig),

    /// A piece of audio.
    AudioContent(Vec<u8>),
}

/// The top-level message sent by the client for the `StreamingRecognize` method.
///
/// Multiple [`StreamingRecognizeRequest`] messages are sent.
/// The first message must contain a `streaming_config` message and must not contain `audio_content`.
/// All subsequent messages must contain `audio_content` and must not contain a `streaming_config` message.
#[derive(Debug)]
pub struct StreamingRecognizeRequest {
    /// Either a `streaming_config`, or `audio_content`.
    pub streaming_request: StreamingRequest,
}

/// The only message returned to the client by the Recognize method.
///
/// It contains the result as zero or more sequential [`SpeechRecognitionResult`] messages.
#[derive(Debug)]
pub struct RecognitionResponse {
    /// The results.
    pub results: Vec<SpeechRecognitionResult>,
}

/// A speech recognition result corresponding to a portion of the audio.
#[derive(Debug)]
pub struct SpeechRecognitionResult {
    /// May contain one or more recognition hypotheses (up to the maximum specified in `max_alternatives`).
    ///
    /// These alternatives are ordered in terms of accuracy, with the top (first) alternative being the most probable, as ranked by the recognizer.
    pub alternatives: Vec<SpeechRecognitionAlternative>,

    /// For multi-channel audio, this is the channel number corresponding to the recognized result for the audio from that channel.
    ///
    /// For `audio_channel_count = N`, its output values can range from '1' to 'N'.
    pub channel_tag: u32,
}

/// A message returned to the client by the `StreamingRecognize` method.
#[derive(Debug)]
pub struct StreamingRecognizeResponse {
    /// The results.
    pub results: Vec<StreamingRecognitionResult>,
}

/// A streaming speech recognition result corresponding to a portion of the audio.
#[derive(Debug)]
pub struct StreamingRecognitionResult {
    /// May contain one or more recognition hypotheses (up to the maximum specified in `max_alternatives`).
    pub alternatives: Vec<SpeechRecognitionAlternative>,

    /// If false, this is an interim result that may change. If true, this is the final one for its portion of the audio.
    pub is_final: bool,
}

/// Alternative hypotheses (a.k.a. n-best list).
#[derive(Debug)]
pub struct SpeechRecognitionAlternative {
    /// Transcript text representing the words that the user spoke.
    pub transcript: String,

    /// IEEE 754 single-precision bits of the confidence estimate between 0.0 and 1.0.
    ///
    /// A higher number indicates an estimated greater likelihood that the recognized words are correct.
    pub confidence: u32,

    /// A list of word-specific information for each recognized word.
    pub words: Vec<WordInfo>,
}

/// Word-specific information for recognized words.
#[derive(Debug)]
pub struct WordInfo {
    /// Time offset relative to the beginning of the audio, and corresponding to the start of the spoken word.
    ///
    /// This field is only set if `enable_word_time_offsets=true` and only in the top hypothesis.
    /// This is an experimental feature and the accuracy of the time offset can vary.
    pub start_time: Duration,

    /// Time offset relative to the beginning of the audio, and corresponding to the end of the spoken word.
    ///
    /// This field is only set if `enable_word_time_offsets=true` and only in the top hypothesis.
    /// This is an experimental feature and the accuracy of the time offset can vary.
    pub end_time: Duration,

    /// The word corresponding to this set of information.
    pub word: String,

    /// Output only. A distinct integer value is assigned for every speaker within the audio.
    ///
    /// This field specifies which one of those speakers was detected to have spoken this word.
    /// Value ranges from '1' to `diarization_speaker_count`.
    /// `speaker_tag` is set if `enable_speaker_diarization = 'true'` and only in the top alternative.
    pub speaker_tag: i32,
}

/// A signed span of time.
#[derive(Debug, Clone, Copy, PartialEq, Eq, Structural)]
pub struct Duration {
    /// Signed seconds of the span of time.
    ///
    /// Must be from -315,576,000,000 to +315,576,000,000 inclusive.
    pub seconds: i64,

    /// Signed fractions of a second at nanosecond resolution of the span of time.
    ///
    /// Durations less than one second are represented with a 0 seconds field and a positive or negative nanos field.
    /// For durations of one second or more, a non-zero value for the nanos field must be of the same sign as the seconds field.
    /// Must be from -999,999,999 to +999,999,999 inclusive.
    pub nanos: i32,
}

/// The Status type defines a logical error model that is suitable for different programming environments, including REST APIs and RPC APIs.
///
/// It is used by gRPC. Each Status message contains three pieces of data: error code, error message, and error details.
#[derive(Debug)]
pub struct Status {
    /// The status code.
    pub code: i32,

    /// A developer-facing error message, which should be in English.
    pub message: String,

    /// A list of messages that carry the error details.
    pub details: Vec<String>,
}

} // verus!
