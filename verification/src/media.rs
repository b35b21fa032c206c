//! The media type that marks a response body as audio.

use vstd::prelude::*;
use vstd::string::{is_ascii, is_ascii_spec_bytes, StringSliceAdditionalSpecFns};

verus! {

/// The bytes of `audio/wav`: the only header value accepted as the audio
/// media type.
pub open spec fn audio_wav() -> Seq<u8> {
    "audio/wav".spec_bytes()
}

/// Spelled out, the audio media type is the nine ASCII codes of `audio/wav`.
pub proof fn audio_wav_spelled_out()
    ensures
        audio_wav() == seq![0x61u8, 0x75u8, 0x64u8, 0x69u8, 0x6fu8, 0x2fu8, 0x77u8, 0x61u8, 0x76u8],
{
    reveal_strlit("audio/wav");
    is_ascii_spec_bytes("audio/wav");
    assert(is_ascii("audio/wav"));
    assert(audio_wav() =~= seq![
        0x61u8,
        0x75u8,
        0x64u8,
        0x69u8,
        0x6fu8,
        0x2fu8,
        0x77u8,
        0x61u8,
        0x76u8,
    ]);
}

/// Whether a header value is the audio media type, byte for byte. Upper case,
/// surrounding blanks and parameters after the type all make it another value.
pub fn is_audio_wav(value: &[u8]) -> (same: bool)
    ensures
        same == (value@ == audio_wav()),
{
    let expected = "audio/wav".as_bytes();
    if value.len() != expected.len() {
        return false;
    }
    let mut at: usize = 0;
    while at < expected.len()
        invariant
            at <= expected.len(),
            value.len() == expected.len(),
            expected@ == audio_wav(),
            forall|k: int| 0 <= k < at ==> value@[k] == expected@[k],
        decreases expected.len() - at,
    {
        if value[at] != expected[at] {
            return false;
        }
        at += 1;
    }
    assert(value@ =~= expected@);
    true
}

/// A value that carries anything after `audio/wav`, such as a `charset`
/// parameter, is not the audio media type.
pub proof fn parameters_change_the_media_type(rest: Seq<u8>)
    requires
        rest.len() > 0,
    ensures
        audio_wav() + rest != audio_wav(),
{
    assert((audio_wav() + rest).len() == audio_wav().len() + rest.len());
}

} // verus!
