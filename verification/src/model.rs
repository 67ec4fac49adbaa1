use vstd::prelude::*;

verus! {

/// One entry of the voice catalog: an immutable record describing a voice the
/// platform speech capability offers. `gender` holds the recognized label,
/// `"Male"` or `"Female"`.
#[derive(Debug, Clone, PartialEq)]
pub struct Voice {
    pub display_name: String,
    pub id: String,
    pub language: String,
    pub description: String,
    pub gender: String,
}

/// A voice record exactly as the platform enumeration reports it, before any
/// validation: the gender is still the platform's raw code (0 for male, 1 for
/// female; anything else is unrecognized and rejected at startup).
#[derive(Debug, Clone, PartialEq)]
pub struct RawVoice {
    pub display_name: String,
    pub id: String,
    pub language: String,
    pub description: String,
    pub gender: i32,
}

/// The IEEE 754 bit pattern of the multiplier 1.0, the default for every
/// prosody parameter. Prosody values travel through the core as bit patterns:
/// the core never interprets them, it only defaults and forwards them.
pub const DEFAULT_PROSODY_BITS: u64 = 0x3FF0_0000_0000_0000;

/// An inbound synthesis request as the transport hands it over: prosody
/// parameters may be absent. Each prosody field is the bit pattern of the
/// client's floating-point multiplier.
#[derive(Debug, Clone, PartialEq)]
pub struct RawApiRequest {
    pub text: String,
    pub voice_id: String,
    pub audio_volume: Option<u64>,
    pub speaking_rate: Option<u64>,
    pub audio_pitch: Option<u64>,
}

/// A normalized synthesis request: every prosody parameter present, defaulted
/// to 1.0 (as a bit pattern) where the client omitted it.
#[derive(Debug, Clone, PartialEq)]
pub struct ApiRequest {
    pub text: String,
    pub voice_id: String,
    pub audio_volume: u64,
    pub speaking_rate: u64,
    pub audio_pitch: u64,
}

/// The effective prosody value: the client's own where given, 1.0 otherwise.
pub open spec fn effective_prosody(v: Option<u64>) -> u64 {
    match v {
        Option::Some(bits) => bits,
        Option::None => DEFAULT_PROSODY_BITS,
    }
}

/// Validates and defaults an inbound request. The transport guarantees the
/// structure (both strings present); all that is left to normalize is the
/// prosody defaulting, so normalization cannot fail.
pub fn normalize(raw: RawApiRequest) -> (r: ApiRequest)
    ensures
        r.text@ == raw.text@,
        r.voice_id@ == raw.voice_id@,
        r.audio_volume == effective_prosody(raw.audio_volume),
        r.speaking_rate == effective_prosody(raw.speaking_rate),
        r.audio_pitch == effective_prosody(raw.audio_pitch),
{
    ApiRequest {
        text: raw.text,
        voice_id: raw.voice_id,
        audio_volume: match raw.audio_volume {
            Option::Some(bits) => bits,
            Option::None => DEFAULT_PROSODY_BITS,
        },
        speaking_rate: match raw.speaking_rate {
            Option::Some(bits) => bits,
            Option::None => DEFAULT_PROSODY_BITS,
        },
        audio_pitch: match raw.audio_pitch {
            Option::Some(bits) => bits,
            Option::None => DEFAULT_PROSODY_BITS,
        },
    }
}

/// A request that omits every prosody parameter is synthesized with the
/// multiplier 1.0 for volume, rate and pitch alike.
pub proof fn lemma_omitted_prosody_defaults_to_one(raw: RawApiRequest)
    requires
        raw.audio_volume is None,
        raw.speaking_rate is None,
        raw.audio_pitch is None,
    ensures
        effective_prosody(raw.audio_volume) == DEFAULT_PROSODY_BITS,
        effective_prosody(raw.speaking_rate) == DEFAULT_PROSODY_BITS,
        effective_prosody(raw.audio_pitch) == DEFAULT_PROSODY_BITS,
{
}

} // verus!
