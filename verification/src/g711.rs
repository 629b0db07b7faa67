//! Mathematical definition of ITU-T G.711 companding.
//!
//! A 16-bit linear sample is split into a sign and a magnitude. The magnitude
//! falls in one of eight segments (octaves); inside a segment it is
//! quantised into sixteen equal steps. A code holds sign, segment and step
//! index; decoding returns the middle of the step.

use vstd::prelude::*;

verus! {

/// Segment (octave) of a magnitude: 0 below 256, then one more for each
/// doubling, capped at 7.
pub open spec fn segment_of(magnitude: u16) -> u16 {
    if magnitude < 256 {
        0
    } else if magnitude < 512 {
        1
    } else if magnitude < 1024 {
        2
    } else if magnitude < 2048 {
        3
    } else if magnitude < 4096 {
        4
    } else if magnitude < 8192 {
        5
    } else if magnitude < 16384 {
        6
    } else {
        7
    }
}

/// log2 of the A-law quantisation step inside a segment: segments 0 and 1
/// share a step of 16, every further segment doubles it.
pub open spec fn alaw_step_shift(segment: u16) -> u16 {
    if segment == 0 {
        4
    } else {
        (segment + 3) as u16
    }
}

/// Magnitude of a linear sample (the sample without its sign).
pub open spec fn magnitude_of(sample: i16) -> int {
    if sample < 0 {
        -sample
    } else {
        sample as int
    }
}

/// The A-law code of a linear sample: sign bit, three segment bits and four
/// step bits, with the even bits inverted (XOR 0x55, and the sign bit set
/// for non-negative samples).
pub open spec fn alaw_encode(sample: i16) -> u8 {
    let magnitude = magnitude_of(sample) as u16;
    let segment = segment_of(magnitude);
    let step = (magnitude >> alaw_step_shift(segment)) & 15u16;
    let sign: u16 = if sample < 0 {
        0x80
    } else {
        0
    };
    ((sign | (segment << 4u16) | step) as u8) ^ 0xd5u8
}

/// The linear sample an A-law code stands for: the middle of the code's
/// quantisation step, with the code's sign.
pub open spec fn alaw_decode(code: u8) -> int {
    let bits = code ^ 0x55u8;
    let segment = ((bits >> 4u8) & 7u8) as u16;
    let step = (bits & 15u8) as u16;
    // index of the step counted from zero: segments above 0 carry an
    // implicit leading one
    let level: u16 = if segment == 0 {
        step
    } else {
        (step + 16) as u16
    };
    let magnitude = ((2 * level + 1) as u16) << ((alaw_step_shift(segment) - 1) as u16);
    if bits & 0x80u8 != 0 {
        magnitude as int
    } else {
        -(magnitude as int)
    }
}

/// Largest µ-law magnitude before the bias is added; larger magnitudes are
/// clipped to it.
pub open spec fn ulaw_clip() -> int {
    32635
}

/// Bias added to a µ-law magnitude so that the segments start at 132.
pub open spec fn ulaw_bias() -> int {
    132
}

/// The µ-law code of a linear sample: the magnitude is clipped, biased and
/// split into segment and step (the step width is 2^(segment + 3)); the code
/// holds sign, segment and step, all bits inverted.
pub open spec fn ulaw_encode(sample: i16) -> u8 {
    let clipped: int = if magnitude_of(sample) > ulaw_clip() {
        ulaw_clip()
    } else {
        magnitude_of(sample)
    };
    let biased = (clipped + ulaw_bias()) as u16;
    let segment = segment_of(biased);
    let step = (biased >> ((segment + 3) as u16)) & 15u16;
    let sign: u16 = if sample < 0 {
        0x80
    } else {
        0
    };
    !((sign | (segment << 4u16) | step) as u8)
}

/// The linear sample a µ-law code stands for: the middle of the code's step,
/// without the bias, with the code's sign. The negative zero code 0x7f
/// decodes to -1, so that it keeps its sign.
pub open spec fn ulaw_decode(code: u8) -> int {
    let bits = !code;
    let segment = ((bits >> 4u8) & 7u8) as u16;
    let step = (bits & 15u8) as u16;
    let biased = ((2 * (step + 16) + 1) as u16) << ((segment + 2) as u16);
    let magnitude = biased - ulaw_bias();
    if code == 0x7f {
        -1
    } else if bits & 0x80u8 != 0 {
        -magnitude
    } else {
        magnitude
    }
}

/// Decoding an A-law code and encoding the sample again gives back the same
/// code: every code is a fixed point of the quantiser. Decoded samples are
/// always valid encoder input.
pub proof fn law_alaw_code_round_trip(code: u8)
    ensures
        i16::MIN < alaw_decode(code) <= i16::MAX,
        alaw_encode(alaw_decode(code) as i16) == code,
{
    assert(-32768 < alaw_decode(code) <= 32767) by (bit_vector);
    assert(alaw_encode(alaw_decode(code) as i16) == code) by (bit_vector);
}

/// Encoding a decoded A-law frame gives back the frame.
pub proof fn law_alaw_frame_round_trip(codes: Seq<u8>)
    ensures
        codes.map_values(|c: u8| alaw_decode(c) as i16).map_values(|s: i16| alaw_encode(s))
            == codes,
{
    assert forall|i: int| 0 <= i < codes.len() implies codes.map_values(
        |c: u8| alaw_decode(c) as i16,
    ).map_values(|s: i16| alaw_encode(s))[i] == codes[i] by {
        law_alaw_code_round_trip(codes[i]);
    }
    assert(codes.map_values(|c: u8| alaw_decode(c) as i16).map_values(|s: i16| alaw_encode(s))
        =~= codes);
}

/// Decoding a µ-law code and encoding the sample again gives back the same
/// code. Decoded samples are always valid encoder input.
pub proof fn law_ulaw_code_round_trip(code: u8)
    ensures
        i16::MIN < ulaw_decode(code) <= i16::MAX,
        ulaw_encode(ulaw_decode(code) as i16) == code,
{
    assert(-32768 < ulaw_decode(code) <= 32767) by (bit_vector);
    assert(ulaw_encode(ulaw_decode(code) as i16) == code) by (bit_vector);
}

/// Largest distance between an A-law-coded sample and the sample its code
/// decodes to: half the quantisation step of the sample's segment.
pub open spec fn alaw_max_error(sample: i16) -> int {
    (1u16 << ((alaw_step_shift(segment_of(magnitude_of(sample) as u16)) - 1) as u16)) as int
}

/// Largest distance between an unclipped µ-law-coded sample and the sample
/// its code decodes to: half the quantisation step of the biased
/// magnitude's segment.
pub open spec fn ulaw_max_error(sample: i16) -> int {
    (1u16 << ((segment_of((magnitude_of(sample) + ulaw_bias()) as u16) + 2) as u16)) as int
}

/// Encoding a sample and decoding the code lands within half a quantisation
/// step of the sample.
pub proof fn law_alaw_quantisation_error(sample: i16)
    requires
        sample != i16::MIN,
    ensures
        -alaw_max_error(sample) <= alaw_decode(alaw_encode(sample)) - sample <= alaw_max_error(
            sample,
        ),
{
    assert(-alaw_max_error(sample) <= alaw_decode(alaw_encode(sample)) - sample
        <= alaw_max_error(sample)) by (bit_vector)
        requires
            sample != i16::MIN,
    ;
}

/// Encoding a sample whose magnitude is at most the clip level and decoding
/// the code lands within half a quantisation step of the sample; louder
/// samples are coded as the clip level with their sign.
pub proof fn law_ulaw_quantisation_error(sample: i16)
    requires
        sample != i16::MIN,
    ensures
        magnitude_of(sample) <= ulaw_clip() ==> -ulaw_max_error(sample) <= ulaw_decode(
            ulaw_encode(sample),
        ) - sample <= ulaw_max_error(sample),
        magnitude_of(sample) > ulaw_clip() ==> ulaw_encode(sample) == ulaw_encode(
            if sample < 0 {
                -32635i16
            } else {
                32635i16
            },
        ),
{
    assert(magnitude_of(sample) <= ulaw_clip() ==> -ulaw_max_error(sample) <= ulaw_decode(
        ulaw_encode(sample),
    ) - sample <= ulaw_max_error(sample)) by (bit_vector)
        requires
            sample != i16::MIN,
    ;
}

/// The A-law quantiser is monotone: a larger sample never decodes to a
/// smaller value.
pub proof fn law_alaw_monotone(a: i16, b: i16)
    requires
        a != i16::MIN,
        b != i16::MIN,
        a <= b,
    ensures
        alaw_decode(alaw_encode(a)) <= alaw_decode(alaw_encode(b)),
{
    assert(alaw_decode(alaw_encode(a)) <= alaw_decode(alaw_encode(b))) by (bit_vector)
        requires
            a != i16::MIN,
            b != i16::MIN,
            a <= b,
    ;
}

/// The µ-law quantiser is monotone: a larger sample never decodes to a
/// smaller value.
pub proof fn law_ulaw_monotone(a: i16, b: i16)
    requires
        a != i16::MIN,
        b != i16::MIN,
        a <= b,
    ensures
        ulaw_decode(ulaw_encode(a)) <= ulaw_decode(ulaw_encode(b)),
{
    assert(ulaw_decode(ulaw_encode(a)) <= ulaw_decode(ulaw_encode(b))) by (bit_vector)
        requires
            a != i16::MIN,
            b != i16::MIN,
            a <= b,
    ;
}

/// Encoding a decoded µ-law frame gives back the frame.
pub proof fn law_ulaw_frame_round_trip(codes: Seq<u8>)
    ensures
        codes.map_values(|c: u8| ulaw_decode(c) as i16).map_values(|s: i16| ulaw_encode(s))
            == codes,
{
    assert forall|i: int| 0 <= i < codes.len() implies codes.map_values(
        |c: u8| ulaw_decode(c) as i16,
    ).map_values(|s: i16| ulaw_encode(s))[i] == codes[i] by {
        law_ulaw_code_round_trip(codes[i]);
    }
    assert(codes.map_values(|c: u8| ulaw_decode(c) as i16).map_values(|s: i16| ulaw_encode(s))
        =~= codes);
}

} // verus!
