use media_server::pcma::{
    alaw_to_linear, decode_pcma, decode_pcmu, encode_pcma, encode_pcmu, linear_to_alaw, linear_to_ulaw,
    ulaw_to_linear, PcmaDecoder, PcmaEncoder, SCRATCH_SAMPLES,
};

const ALAW_TO_LINEAR: [i16; 256] = [
    -5504, -5248, -6016, -5760, -4480, -4224, -4992, -4736, -7552, -7296, -8064, -7808, -6528, -6272, -7040, -6784, -2752, -2624, -3008, -2880, -2240, -2112, -2496, -2368, -3776, -3648, -4032, -3904,
    -3264, -3136, -3520, -3392, -22016, -20992, -24064, -23040, -17920, -16896, -19968, -18944, -30208, -29184, -32256, -31232, -26112, -25088, -28160, -27136, -11008, -10496, -12032, -11520, -8960,
    -8448, -9984, -9472, -15104, -14592, -16128, -15616, -13056, -12544, -14080, -13568, -344, -328, -376, -360, -280, -264, -312, -296, -472, -456, -504, -488, -408, -392, -440, -424, -88, -72,
    -120, -104, -24, -8, -56, -40, -216, -200, -248, -232, -152, -136, -184, -168, -1376, -1312, -1504, -1440, -1120, -1056, -1248, -1184, -1888, -1824, -2016, -1952, -1632, -1568, -1760, -1696,
    -688, -656, -752, -720, -560, -528, -624, -592, -944, -912, -1008, -976, -816, -784, -880, -848, 5504, 5248, 6016, 5760, 4480, 4224, 4992, 4736, 7552, 7296, 8064, 7808, 6528, 6272, 7040, 6784,
    2752, 2624, 3008, 2880, 2240, 2112, 2496, 2368, 3776, 3648, 4032, 3904, 3264, 3136, 3520, 3392, 22016, 20992, 24064, 23040, 17920, 16896, 19968, 18944, 30208, 29184, 32256, 31232, 26112, 25088,
    28160, 27136, 11008, 10496, 12032, 11520, 8960, 8448, 9984, 9472, 15104, 14592, 16128, 15616, 13056, 12544, 14080, 13568, 344, 328, 376, 360, 280, 264, 312, 296, 472, 456, 504, 488, 408, 392,
    440, 424, 88, 72, 120, 104, 24, 8, 56, 40, 216, 200, 248, 232, 152, 136, 184, 168, 1376, 1312, 1504, 1440, 1120, 1056, 1248, 1184, 1888, 1824, 2016, 1952, 1632, 1568, 1760, 1696, 688, 656, 752,
    720, 560, 528, 624, 592, 944, 912, 1008, 976, 816, 784, 880, 848,
];

const ULAW_TO_LINEAR: [i16; 256] = [
    -32124, -31100, -30076, -29052, -28028, -27004, -25980, -24956, -23932, -22908, -21884, -20860, -19836, -18812, -17788, -16764, -15996, -15484, -14972, -14460, -13948, -13436, -12924, -12412,
    -11900, -11388, -10876, -10364, -9852, -9340, -8828, -8316, -7932, -7676, -7420, -7164, -6908, -6652, -6396, -6140, -5884, -5628, -5372, -5116, -4860, -4604, -4348, -4092, -3900, -3772, -3644,
    -3516, -3388, -3260, -3132, -3004, -2876, -2748, -2620, -2492, -2364, -2236, -2108, -1980, -1884, -1820, -1756, -1692, -1628, -1564, -1500, -1436, -1372, -1308, -1244, -1180, -1116, -1052, -988,
    -924, -876, -844, -812, -780, -748, -716, -684, -652, -620, -588, -556, -524, -492, -460, -428, -396, -372, -356, -340, -324, -308, -292, -276, -260, -244, -228, -212, -196, -180, -164, -148,
    -132, -120, -112, -104, -96, -88, -80, -72, -64, -56, -48, -40, -32, -24, -16, -8, -1, 32124, 31100, 30076, 29052, 28028, 27004, 25980, 24956, 23932, 22908, 21884, 20860, 19836, 18812, 17788,
    16764, 15996, 15484, 14972, 14460, 13948, 13436, 12924, 12412, 11900, 11388, 10876, 10364, 9852, 9340, 8828, 8316, 7932, 7676, 7420, 7164, 6908, 6652, 6396, 6140, 5884, 5628, 5372, 5116, 4860,
    4604, 4348, 4092, 3900, 3772, 3644, 3516, 3388, 3260, 3132, 3004, 2876, 2748, 2620, 2492, 2364, 2236, 2108, 1980, 1884, 1820, 1756, 1692, 1628, 1564, 1500, 1436, 1372, 1308, 1244, 1180, 1116,
    1052, 988, 924, 876, 844, 812, 780, 748, 716, 684, 652, 620, 588, 556, 524, 492, 460, 428, 396, 372, 356, 340, 324, 308, 292, 276, 260, 244, 228, 212, 196, 180, 164, 148, 132, 120, 112, 104, 96,
    88, 80, 72, 64, 56, 48, 40, 32, 24, 16, 8, 0,
];

#[test]
fn decode() {
    let pcma = vec![
        85, 85, 85, 85, 85, 213, 85, 213, 213, 213, 213, 85, 213, 85, 213, 213, 213, 85, 85, 213, 85, 85, 85, 213, 85, 85, 85, 85, 213, 85, 213, 213, 213, 85, 213, 213, 85, 213, 85, 85, 85, 213,
        85, 85, 212, 85, 213, 85, 85, 85, 85, 213, 85, 212, 213, 85, 213, 84, 85, 213, 213, 213, 212, 213, 84, 84, 213, 213, 85, 212, 213, 213, 85, 84, 213, 85, 212, 213, 85, 213, 84, 213, 85,
        213, 213, 85, 212, 84, 213, 85, 213, 85, 213, 213, 85, 212, 84, 85, 213, 215, 85, 213, 213, 87, 85, 87, 212, 213, 215, 213, 84, 212, 86, 213, 85, 215, 213, 84, 212, 87, 84, 84, 215, 215,
        85, 85, 213, 84, 84, 212, 215, 209, 87, 86, 213, 85, 85, 212, 208, 213, 81, 84, 84, 213, 212, 213, 214, 213, 80, 87, 213, 215, 212, 215, 212, 87, 86, 86, 212, 214,
    ];
    let mut raw = vec![0; pcma.len()];
    decode_pcma(&pcma, &mut raw);
    let expected: Vec<i16> = vec![
        -8, -8, -8, -8, -8, 8, -8, 8, 8, 8, 8, -8, 8, -8, 8, 8, 8, -8, -8, 8, -8, -8, -8, 8, -8, -8, -8, -8, 8, -8, 8, 8, 8, -8, 8, 8, -8, 8, -8, -8, -8, 8, -8, -8, 24, -8, 8, -8, -8, -8, -8, 8,
        -8, 24, 8, -8, 8, -24, -8, 8, 8, 8, 24, 8, -24, -24, 8, 8, -8, 24, 8, 8, -8, -24, 8, -8, 24, 8, -8, 8, -24, 8, -8, 8, 8, -8, 24, -24, 8, -8, 8, -8, 8, 8, -8, 24, -24, -8, 8, 40, -8, 8, 8,
        -40, -8, -40, 24, 8, 40, 8, -24, 24, -56, 8, -8, 40, 8, -24, 24, -40, -24, -24, 40, 40, -8, -8, 8, -24, -24, 24, 40, 72, -40, -56, 8, -8, -8, 24, 88, 8, -72, -24, -24, 8, 24, 8, 56, 8,
        -88, -40, 8, 40, 24, 40, 24, -40, -56, -56, 24, 56,
    ];
    assert_eq!(raw, expected);
}

#[test]
fn encode() {
    let raw: Vec<i16> = vec![
        -8, -8, -8, -8, -8, 8, -8, 8, 8, 8, 8, -8, 8, -8, 8, 8, 8, -8, -8, 8, -8, -8, -8, 8, -8, -8, -8, -8, 8, -8, 8, 8, 8, -8, 8, 8, -8, 8, -8, -8, -8, 8, -8, -8, 24, -8, 8, -8, -8, -8, -8, 8,
        -8, 24, 8, -8, 8, -24, -8, 8, 8, 8, 24, 8, -24, -24, 8, 8, -8, 24, 8, 8, -8, -24, 8, -8, 24, 8, -8, 8, -24, 8, -8, 8, 8, -8, 24, -24, 8, -8, 8, -8, 8, 8, -8, 24, -24, -8, 8, 40, -8, 8, 8,
        -40, -8, -40, 24, 8, 40, 8, -24, 24, -56, 8, -8, 40, 8, -24, 24, -40, -24, -24, 40, 40, -8, -8, 8, -24, -24, 24, 40, 72, -40, -56, 8, -8, -8, 24, 88, 8, -72, -24, -24, 8, 24, 8, 56, 8,
        -88, -40, 8, 40, 24, 40, 24, -40, -56, -56, 24, 56,
    ];
    let expected = vec![
        85, 85, 85, 85, 85, 213, 85, 213, 213, 213, 213, 85, 213, 85, 213, 213, 213, 85, 85, 213, 85, 85, 85, 213, 85, 85, 85, 85, 213, 85, 213, 213, 213, 85, 213, 213, 85, 213, 85, 85, 85, 213,
        85, 85, 212, 85, 213, 85, 85, 85, 85, 213, 85, 212, 213, 85, 213, 84, 85, 213, 213, 213, 212, 213, 84, 84, 213, 213, 85, 212, 213, 213, 85, 84, 213, 85, 212, 213, 85, 213, 84, 213, 85,
        213, 213, 85, 212, 84, 213, 85, 213, 85, 213, 213, 85, 212, 84, 85, 213, 215, 85, 213, 213, 87, 85, 87, 212, 213, 215, 213, 84, 212, 86, 213, 85, 215, 213, 84, 212, 87, 84, 84, 215, 215,
        85, 85, 213, 84, 84, 212, 215, 209, 87, 86, 213, 85, 85, 212, 208, 213, 81, 84, 84, 213, 212, 213, 214, 213, 80, 87, 213, 215, 212, 215, 212, 87, 86, 86, 212, 214,
    ];
    let mut encoded = vec![0; raw.len()];
    encode_pcma(&raw, &mut encoded);
    assert_eq!(encoded, expected);
}

fn segment_of(magnitude: i32) -> i32 {
    let thresholds = [256, 512, 1024, 2048, 4096, 8192, 16384];
    let mut segment = 0;
    while segment < 7 && magnitude >= thresholds[segment as usize] {
        segment += 1;
    }
    segment
}

#[test]
fn alaw_decoding_matches_g711_table() {
    for code in 0..=255u8 {
        assert_eq!(alaw_to_linear(code), ALAW_TO_LINEAR[code as usize], "code {code}");
    }
}

#[test]
fn ulaw_decoding_matches_g711_table() {
    for code in 0..=255u8 {
        assert_eq!(ulaw_to_linear(code), ULAW_TO_LINEAR[code as usize], "code {code}");
    }
}

#[test]
fn alaw_code_round_trip() {
    for code in 0..=255u8 {
        assert_eq!(linear_to_alaw(alaw_to_linear(code)), code);
    }
}

#[test]
fn ulaw_code_round_trip() {
    for code in 0..=255u8 {
        assert_eq!(linear_to_ulaw(ulaw_to_linear(code)), code);
    }
}

#[test]
fn alaw_quantisation_error_is_half_a_step() {
    for sample in -32767..=32767i16 {
        let magnitude = (sample as i32).abs();
        let segment = segment_of(magnitude);
        let shift = if segment == 0 { 4 } else { segment + 3 };
        let half_step = 1i32 << (shift - 1);
        let decoded = alaw_to_linear(linear_to_alaw(sample)) as i32;
        assert!((decoded - sample as i32).abs() <= half_step, "sample {sample}");
    }
}

#[test]
fn ulaw_quantisation_error_is_half_a_step() {
    for sample in -32635..=32635i16 {
        let magnitude = (sample as i32).abs();
        let half_step = 1i32 << (segment_of(magnitude + 132) + 2);
        let decoded = ulaw_to_linear(linear_to_ulaw(sample)) as i32;
        assert!((decoded - sample as i32).abs() <= half_step, "sample {sample}");
    }
}

#[test]
fn ulaw_clips_loud_samples() {
    for sample in 32636..=32767i16 {
        assert_eq!(linear_to_ulaw(sample), linear_to_ulaw(32635));
        assert_eq!(linear_to_ulaw(-sample), linear_to_ulaw(-32635));
    }
}

#[test]
fn quantisers_are_monotone() {
    let mut previous_alaw = i16::MIN;
    let mut previous_ulaw = i16::MIN;
    for sample in -32767..=32767i16 {
        let alaw = alaw_to_linear(linear_to_alaw(sample));
        let ulaw = ulaw_to_linear(linear_to_ulaw(sample));
        assert!(alaw >= previous_alaw, "sample {sample}");
        assert!(ulaw >= previous_ulaw, "sample {sample}");
        previous_alaw = alaw;
        previous_ulaw = ulaw;
    }
}

#[test]
fn known_codes() {
    assert_eq!(linear_to_alaw(0), 0xd5);
    assert_eq!(linear_to_alaw(-1), 0x55);
    assert_eq!(linear_to_alaw(32767), 0xaa);
    assert_eq!(linear_to_alaw(-32767), 0x2a);
    assert_eq!(alaw_to_linear(0x2a), -32256);
    assert_eq!(alaw_to_linear(0xaa), 32256);
    assert_eq!(linear_to_ulaw(0), 0xff);
    assert_eq!(linear_to_ulaw(-1), 0x7f);
    assert_eq!(linear_to_ulaw(32767), 0x80);
    assert_eq!(ulaw_to_linear(0x00), -32124);
    assert_eq!(ulaw_to_linear(0x80), 32124);
    assert_eq!(ulaw_to_linear(0x7f), -1);
    assert_eq!(ulaw_to_linear(0xff), 0);
}

#[test]
fn encode_pcmu_leaves_output_untouched() {
    let input: Vec<i16> = vec![100, -100, 0];
    let mut encoded: Vec<u8> = vec![7, 9, 11];
    encode_pcmu(&input, &mut encoded);
    assert_eq!(encoded, vec![7, 9, 11]);
}

#[test]
fn decode_pcmu_decodes_each_code() {
    let input: Vec<u8> = vec![0x00, 0x7f, 0x80, 0xff];
    let mut decoded: Vec<i16> = vec![0; 4];
    decode_pcmu(&input, &mut decoded);
    assert_eq!(decoded, vec![-32124, -1, 32124, 0]);
}

#[test]
fn empty_buffers() {
    let mut encoded: Vec<u8> = vec![];
    encode_pcma(&[], &mut encoded);
    assert!(encoded.is_empty());
    let mut decoded: Vec<i16> = vec![];
    decode_pcma(&[], &mut decoded);
    assert!(decoded.is_empty());
}

#[test]
fn decoder_stages_decoded_frame() {
    let mut decoder = PcmaDecoder::default();
    assert_eq!(decoder.decode(&[0x55, 0xd5, 0x2a]), 3);
    assert_eq!(decoder.samples(3), &[-8, 8, -32256]);
    assert_eq!(decoder.samples(5), &[-8, 8, -32256, 0, 0]);
    assert_eq!(decoder.decode(&[0xd5]), 1);
    assert_eq!(decoder.samples(3), &[8, 8, -32256]);
    let frame = vec![0xd5u8; SCRATCH_SAMPLES];
    assert_eq!(decoder.decode(&frame), SCRATCH_SAMPLES);
    assert!(decoder.samples(SCRATCH_SAMPLES).iter().all(|s| *s == 8));
}

#[test]
fn encoder_fails_without_resampled_frame() {
    let mut encoder = PcmaEncoder::default();
    let mut out = [1u8; 4];
    assert_eq!(encoder.encode(None, &mut out), None);
    assert_eq!(out, [1; 4]);
}

#[test]
fn encoder_encodes_resampled_frame() {
    let mut encoder = PcmaEncoder::default();
    let mut out = [1u8; 4];
    assert_eq!(encoder.encode(Some(&[-8, 8]), &mut out), Some(2));
    assert_eq!(out, [0x55, 0xd5, 1, 1]);
    assert_eq!(encoder.encode(Some(&[]), &mut out), Some(0));
    assert_eq!(out, [0x55, 0xd5, 1, 1]);
}
