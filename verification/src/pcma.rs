//! G.711 sample conversion between 16-bit linear PCM and 8-bit A-law / µ-law.

use vstd::prelude::*;
use crate::g711::{alaw_decode, alaw_encode, magnitude_of, ulaw_decode, ulaw_encode};

verus! {

/// Convert an 8-bit A-law value to a 16-bit LPCM sample.
pub fn alaw_to_linear(alaw_value: u8) -> (sample: i16)
    ensures
        sample == alaw_decode(alaw_value),
{
    let bits: u8 = alaw_value ^ 0x55;
    let segment: u8 = (bits & 0x70) >> 4;
    assert(bits & 0x0f <= 15 && (bits & 0x70) >> 4 <= 7) by (bit_vector);
    let mut t: i16 = ((bits & 0x0f) as i16) * 16;
    if segment == 0 {
        t = t + 8;
    } else {
        let base: i16 = t + 0x108;
        t = base << (segment - 1);
        assert(0 <= t <= 32256) by (bit_vector)
            requires
                0 <= base <= 504,
                1 <= segment <= 7,
                t == base << ((segment - 1) as u8),
        ;
    }
    let sample: i16 = if bits & 0x80 != 0 {
        t
    } else {
        -t
    };
    assert(sample == alaw_decode(alaw_value)) by (bit_vector)
        requires
            bits == alaw_value ^ 0x55u8,
            segment == (bits & 0x70u8) >> 4u8,
            t == (if segment == 0 {
                (((bits & 0x0fu8) as i16) * 16 + 8) as i16
            } else {
                (((((bits & 0x0fu8) as i16) * 16 + 0x108) as i16) << ((segment - 1) as u8)) as i16
            }),
            sample == (if bits & 0x80u8 != 0 { t as int } else { -t }),
    ;
    sample
}

/// Convert a 16-bit LPCM sample to an 8-bit A-law value.
///
/// The magnitude of `i16::MIN` does not fit in an `i16`, so that sample is
/// outside the domain.
pub fn linear_to_alaw(sample: i16) -> (alaw: u8)
    requires
        sample != i16::MIN,
    ensures
        alaw == alaw_encode(sample),
{
    let mut pcm_value: i16 = sample;
    let sign: i16 = (pcm_value & i16::MIN) >> 8u16;
    assert((sign != 0) == (sample < 0)) by (bit_vector)
        requires
            sign == (sample & i16::MIN) >> 8u16,
    ;
    if sign != 0 {
        pcm_value = -pcm_value;
    }
    let mut exponent: i16 = 7;
    let mut mask: i16 = 0x4000;
    assert(pcm_value >> 15u16 == 0 && mask == 0x4000i16 >> 0u16) by (bit_vector)
        requires
            0 <= pcm_value,
            mask == 0x4000i16,
    ;
    while pcm_value & mask == 0 && exponent > 0
        invariant
            0 <= pcm_value,
            pcm_value == magnitude_of(sample),
            0 <= exponent <= 7,
            mask == 0x4000i16 >> ((7 - exponent) as u16),
            pcm_value >> ((exponent + 8) as u16) == 0,
        decreases exponent,
    {
        assert(pcm_value >> ((exponent - 1 + 8) as u16) == 0 && mask >> 1u16 == 0x4000i16 >> ((7
            - (exponent - 1)) as u16)) by (bit_vector)
            requires
                0 <= pcm_value,
                1 <= exponent <= 7,
                mask == 0x4000i16 >> ((7 - exponent) as u16),
                pcm_value >> ((exponent + 8) as u16) == 0,
                pcm_value & mask == 0,
        ;
        exponent -= 1;
        mask >>= 1u16;
    }
    let manitssa: i16 = if exponent == 0 {
        (pcm_value >> 4u16) & 0x0f
    } else {
        (pcm_value >> ((exponent + 3) as u16)) & 0x0f
    };
    let alaw_value: i16 = sign | exponent << 4u16 | manitssa;
    let alaw: u8 = #[verifier::truncate] ((alaw_value ^ 0xd5) as u8);
    assert(alaw == alaw_encode(sample)) by (bit_vector)
        requires
            sample != i16::MIN,
            sign == (sample & i16::MIN) >> 8u16,
            (sign != 0) == (sample < 0),
            pcm_value == (if sample < 0 { -sample } else { sample as int }),
            0 <= exponent <= 7,
            mask == 0x4000i16 >> ((7 - exponent) as u16),
            pcm_value >> ((exponent + 8) as u16) == 0,
            !(pcm_value & mask == 0 && exponent > 0),
            manitssa == (if exponent == 0 {
                (pcm_value >> 4u16) & 0x0fi16
            } else {
                (pcm_value >> ((exponent + 3) as u16)) & 0x0fi16
            }),
            alaw_value == sign | exponent << 4u16 | manitssa,
            alaw == (alaw_value ^ 0xd5i16) as u8,
    ;
    alaw
}

/// Convert an 8-bit µ-law value to a 16-bit LPCM sample.
pub fn ulaw_to_linear(ulaw_value: u8) -> (sample: i16)
    ensures
        sample == ulaw_decode(ulaw_value),
{
    if ulaw_value == 0x7f {
        // negative zero keeps its sign
        return -1;
    }
    let bits: u8 = !ulaw_value;
    let exponent: u8 = (bits >> 4) & 0x07;
    assert(bits & 0x0f <= 15 && (bits >> 4) & 0x07 <= 7) by (bit_vector);
    let base: i16 = ((bits & 0x0f) as i16) * 8 + 0x84;
    let t: i16 = base << exponent;
    assert(132 <= t <= 32256) by (bit_vector)
        requires
            132 <= base <= 252,
            exponent <= 7,
            t == base << exponent,
    ;
    let sample: i16 = if bits & 0x80 != 0 {
        0x84 - t
    } else {
        t - 0x84
    };
    assert(sample == ulaw_decode(ulaw_value)) by (bit_vector)
        requires
            ulaw_value != 0x7fu8,
            bits == !ulaw_value,
            exponent == (bits >> 4u8) & 0x07u8,
            t == ((((bits & 0x0fu8) as i16) * 8 + 0x84) as i16) << exponent,
            sample == (if bits & 0x80u8 != 0 { 0x84 - t } else { t - 0x84 }),
    ;
    sample
}

/// Convert a 16-bit LPCM sample to an 8-bit µ-law value.
///
/// The magnitude of `i16::MIN` does not fit in an `i16`, so that sample is
/// outside the domain.
pub fn linear_to_ulaw(sample: i16) -> (ulaw: u8)
    requires
        sample != i16::MIN,
    ensures
        ulaw == ulaw_encode(sample),
{
    let mut pcm_value: i16 = sample;
    let sign: i16 = (pcm_value >> 8u16) & 0x80;
    assert((sign != 0) == (sample < 0) && (sign == 0 || sign == 0x80)) by (bit_vector)
        requires
            sign == (sample >> 8u16) & 0x80i16,
    ;
    if sign != 0 {
        pcm_value = -pcm_value;
    }
    if pcm_value > 32635 {
        pcm_value = 32635;
    }
    pcm_value += 0x84;
    let mut exponent: i16 = 7;
    let mut mask: i16 = 0x4000;
    assert(pcm_value >> 15u16 == 0 && mask == 0x4000i16 >> 0u16) by (bit_vector)
        requires
            0 <= pcm_value,
            mask == 0x4000i16,
    ;
    while pcm_value & mask == 0
        invariant
            132 <= pcm_value,
            0 <= exponent <= 7,
            mask == 0x4000i16 >> ((7 - exponent) as u16),
            pcm_value >> ((exponent + 8) as u16) == 0,
        decreases exponent,
    {
        assert(1 <= exponent && pcm_value >> ((exponent - 1 + 8) as u16) == 0 && mask >> 1u16
            == 0x4000i16 >> ((7 - (exponent - 1)) as u16)) by (bit_vector)
            requires
                132 <= pcm_value,
                0 <= exponent <= 7,
                mask == 0x4000i16 >> ((7 - exponent) as u16),
                pcm_value >> ((exponent + 8) as u16) == 0,
                pcm_value & mask == 0,
        ;
        exponent -= 1;
        mask >>= 1u16;
    }
    let manitssa: i16 = (pcm_value >> ((exponent + 3) as u16)) & 0x0f;
    let ulaw_value: i16 = sign | exponent << 4u16 | manitssa;
    let ulaw: u8 = #[verifier::truncate] ((!ulaw_value) as u8);
    assert(ulaw == ulaw_encode(sample)) by (bit_vector)
        requires
            sample != i16::MIN,
            sign == (sample >> 8u16) & 0x80i16,
            (sign != 0) == (sample < 0),
            pcm_value == (if sample < 0 {
                if -sample > 32635 { 32635 } else { -sample }
            } else {
                if sample > 32635 { 32635 } else { sample as int }
            }) + 132,
            0 <= exponent <= 7,
            mask == 0x4000i16 >> ((7 - exponent) as u16),
            pcm_value >> ((exponent + 8) as u16) == 0,
            pcm_value & mask != 0,
            manitssa == (pcm_value >> ((exponent + 3) as u16)) & 0x0fi16,
            ulaw_value == sign | exponent << 4u16 | manitssa,
            ulaw == (!ulaw_value) as u8,
    ;
    ulaw
}

/// Encode linear samples as A-law, one code per sample.
///
/// Both buffers must have the same length.
pub fn encode_pcma(input: &[i16], encoded: &mut [u8])
    requires
        input@.len() == old(encoded)@.len(),
        forall|i: int| 0 <= i < input@.len() ==> input@[i] != i16::MIN,
    ensures
        final(encoded)@.len() == input@.len(),
        forall|i: int| 0 <= i < input@.len() ==> final(encoded)@[i] == alaw_encode(#[trigger] input@[i]),
{
    let n: usize = input.len();
    for i in 0..n
        invariant
            n == input@.len(),
            encoded@.len() == n,
            forall|j: int| 0 <= j < n ==> input@[j] != i16::MIN,
            forall|j: int| 0 <= j < i ==> encoded@[j] == alaw_encode(#[trigger] input@[j]),
    {
        encoded[i] = linear_to_alaw(input[i]);
    }
}

/// Run µ-law encoding over the input samples.
///
/// The codes are produced into a scratch buffer of its own; `encoded` is
/// only checked for its length and is left as it was.
pub fn encode_pcmu(input: &[i16], encoded: &mut [u8])
    requires
        input@.len() == old(encoded)@.len(),
        forall|i: int| 0 <= i < input@.len() ==> input@[i] != i16::MIN,
    ensures
        final(encoded)@ == old(encoded)@,
{
    let n: usize = input.len();
    let mut scratch: Vec<u8> = vec![0u8; n];
    for i in 0..n
        invariant
            n == input@.len(),
            scratch@.len() == n,
            forall|j: int| 0 <= j < n ==> input@[j] != i16::MIN,
    {
        scratch.set(i, linear_to_ulaw(input[i]));
    }
}

/// Decode A-law codes into linear samples, one sample per code.
///
/// Both buffers must have the same length.
pub fn decode_pcma(input: &[u8], decoded: &mut [i16])
    requires
        input@.len() == old(decoded)@.len(),
    ensures
        final(decoded)@.len() == input@.len(),
        forall|i: int| 0 <= i < input@.len() ==> final(decoded)@[i] == alaw_decode(#[trigger] input@[i]),
{
    let n: usize = input.len();
    for i in 0..n
        invariant
            n == input@.len(),
            decoded@.len() == n,
            forall|j: int| 0 <= j < i ==> decoded@[j] == alaw_decode(#[trigger] input@[j]),
    {
        decoded[i] = alaw_to_linear(input[i]);
    }
}

/// Decode µ-law codes into linear samples, one sample per code.
///
/// Both buffers must have the same length.
pub fn decode_pcmu(input: &[u8], decoded: &mut [i16])
    requires
        input@.len() == old(decoded)@.len(),
    ensures
        final(decoded)@.len() == input@.len(),
        forall|i: int| 0 <= i < input@.len() ==> final(decoded)@[i] == ulaw_decode(#[trigger] input@[i]),
{
    let n: usize = input.len();
    for i in 0..n
        invariant
            n == input@.len(),
            decoded@.len() == n,
            forall|j: int| 0 <= j < i ==> decoded@[j] == ulaw_decode(#[trigger] input@[j]),
    {
        decoded[i] = ulaw_to_linear(input[i]);
    }
}

/// Samples in a codec's scratch buffer: 20 ms at 48 kHz.
pub const SCRATCH_SAMPLES: usize = 960;

/// A-law decoder stage: decodes a frame into its scratch buffer, from which
/// the samples go on to be upsampled from 8 kHz to 48 kHz.
pub struct PcmaDecoder {
    tmp_buf: Vec<i16>,
}

impl View for PcmaDecoder {
    type V = Seq<i16>;

    closed spec fn view(&self) -> Seq<i16> {
        self.tmp_buf@
    }
}

impl PcmaDecoder {
    /// The scratch buffer keeps its size.
    pub open spec fn wf(&self) -> bool {
        self@.len() == SCRATCH_SAMPLES
    }

    /// Decode an A-law frame into the scratch buffer. The first
    /// `in_buf.len()` samples of the buffer hold the decoded frame; the rest
    /// of the buffer is untouched. Returns the number of decoded samples.
    pub fn decode(&mut self, in_buf: &[u8]) -> (n: usize)
        requires
            old(self).wf(),
            in_buf@.len() <= SCRATCH_SAMPLES,
        ensures
            final(self).wf(),
            n == in_buf@.len(),
            forall|i: int| 0 <= i < n ==> final(self)@[i] == alaw_decode(#[trigger] in_buf@[i]),
            forall|i: int| n <= i < SCRATCH_SAMPLES ==> #[trigger] final(self)@[i] == old(self)@[i],
    {
        let n: usize = in_buf.len();
        let ghost before: Seq<i16> = self.tmp_buf@;
        for i in 0..n
            invariant
                n == in_buf@.len(),
                n <= SCRATCH_SAMPLES,
                self.tmp_buf@.len() == SCRATCH_SAMPLES,
                before.len() == SCRATCH_SAMPLES,
                forall|j: int| 0 <= j < i ==> self.tmp_buf@[j] == alaw_decode(#[trigger] in_buf@[j]),
                forall|j: int| i <= j < SCRATCH_SAMPLES ==> #[trigger] self.tmp_buf@[j] == before[j],
        {
            self.tmp_buf.set(i, alaw_to_linear(in_buf[i]));
        }
        n
    }

    /// The first `len` samples of the scratch buffer.
    pub fn samples(&self, len: usize) -> (out: &[i16])
        requires
            self.wf(),
            len <= SCRATCH_SAMPLES,
        ensures
            out@ == self@.subrange(0, len as int),
    {
        vstd::slice::slice_subrange(self.tmp_buf.as_slice(), 0, len)
    }
}

impl Default for PcmaDecoder {
    fn default() -> (decoder: Self)
        ensures
            decoder.wf(),
            decoder@ == Seq::new(SCRATCH_SAMPLES as nat, |i: int| 0i16),
    {
        let tmp_buf: Vec<i16> = vec![0i16; SCRATCH_SAMPLES];
        assert(tmp_buf@ == Seq::new(SCRATCH_SAMPLES as nat, |i: int| 0i16));
        PcmaDecoder { tmp_buf }
    }
}

/// A-law encoder stage: takes a frame already downsampled from 48 kHz to
/// 8 kHz into its scratch buffer and encodes it.
pub struct PcmaEncoder {
    tmp_buf: Vec<i16>,
}

impl View for PcmaEncoder {
    type V = Seq<i16>;

    closed spec fn view(&self) -> Seq<i16> {
        self.tmp_buf@
    }
}

impl PcmaEncoder {
    /// The scratch buffer keeps its size.
    pub open spec fn wf(&self) -> bool {
        self@.len() == SCRATCH_SAMPLES
    }

    /// Encode a downsampled frame. `resampled` is what the resampler handed
    /// back: `None` when it failed, which fails the encoding too. Otherwise
    /// its samples are stored at the start of the scratch buffer and encoded
    /// into the first samples of `out_buf`; the rest of `out_buf` is
    /// untouched. Returns the number of encoded samples.
    pub fn encode(&mut self, resampled: Option<&[i16]>, out_buf: &mut [u8]) -> (out_samples:
        Option<usize>)
        requires
            old(self).wf(),
            resampled matches Some(r) ==> {
                &&& r@.len() <= SCRATCH_SAMPLES
                &&& r@.len() <= old(out_buf)@.len()
                &&& forall|i: int| 0 <= i < r@.len() ==> r@[i] != i16::MIN
            },
        ensures
            final(self).wf(),
            final(out_buf)@.len() == old(out_buf)@.len(),
            match resampled {
                None => {
                    &&& out_samples is None
                    &&& final(self)@ == old(self)@
                    &&& final(out_buf)@ == old(out_buf)@
                },
                Some(r) => {
                    &&& out_samples == Some(r@.len() as usize)
                    &&& final(self)@ == r@ + old(self)@.subrange(r@.len() as int, SCRATCH_SAMPLES as int)
                    &&& forall|i: int| 0 <= i < r@.len() ==> final(out_buf)@[i] == alaw_encode(#[trigger] r@[i])
                    &&& forall|i: int| r@.len() <= i < old(out_buf)@.len() ==> #[trigger] final(out_buf)@[i] == old(out_buf)@[i]
                },
            },
    {
        let samples: &[i16] = match resampled {
            None => return None,
            Some(r) => r,
        };
        let n: usize = samples.len();
        let ghost before: Seq<i16> = self.tmp_buf@;
        let ghost out_before: Seq<u8> = out_buf@;
        for i in 0..n
            invariant
                n == samples@.len(),
                n <= SCRATCH_SAMPLES,
                n <= out_before.len(),
                self.tmp_buf@.len() == SCRATCH_SAMPLES,
                before.len() == SCRATCH_SAMPLES,
                out_buf@.len() == out_before.len(),
                forall|j: int| 0 <= j < n ==> samples@[j] != i16::MIN,
                forall|j: int| 0 <= j < i ==> self.tmp_buf@[j] == #[trigger] samples@[j],
                forall|j: int| i <= j < SCRATCH_SAMPLES ==> #[trigger] self.tmp_buf@[j] == before[j],
                forall|j: int| 0 <= j < i ==> out_buf@[j] == alaw_encode(#[trigger] samples@[j]),
                forall|j: int| i <= j < out_before.len() ==> #[trigger] out_buf@[j] == out_before[j],
        {
            self.tmp_buf.set(i, samples[i]);
            out_buf[i] = linear_to_alaw(self.tmp_buf[i]);
        }
        assert(self.tmp_buf@ =~= samples@ + before.subrange(n as int, SCRATCH_SAMPLES as int));
        Some(n)
    }
}

impl Default for PcmaEncoder {
    fn default() -> (encoder: Self)
        ensures
            encoder.wf(),
            encoder@ == Seq::new(SCRATCH_SAMPLES as nat, |i: int| 0i16),
    {
        let tmp_buf: Vec<i16> = vec![0i16; SCRATCH_SAMPLES];
        assert(tmp_buf@ == Seq::new(SCRATCH_SAMPLES as nat, |i: int| 0i16));
        PcmaEncoder { tmp_buf }
    }
}

} // verus!
