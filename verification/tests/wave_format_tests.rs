use audio_core::pcm::{
    clamp_to_i16, decode_samples, encode_samples, PCM16_SCALE_BITS, PCM32_SCALE_BITS,
};
use audio_core::wave_format::{
    header_len, parse_mix_format, read_i16, read_i32, read_u16, read_u32, SampleEncoding,
    SubFormat, WaveFormat, WaveFormatExtension, WAVE_FORMAT_EXTENSIBLE_LEN, WAVE_FORMAT_LEN,
};

fn header(tag: u16, channels: u16, rate: u32, block_align: u16, bits: u16, extra: u16) -> Vec<u8> {
    let mut bytes = Vec::new();
    bytes.extend_from_slice(&tag.to_le_bytes());
    bytes.extend_from_slice(&channels.to_le_bytes());
    bytes.extend_from_slice(&rate.to_le_bytes());
    bytes.extend_from_slice(&(rate * block_align as u32).to_le_bytes());
    bytes.extend_from_slice(&block_align.to_le_bytes());
    bytes.extend_from_slice(&bits.to_le_bytes());
    bytes.extend_from_slice(&extra.to_le_bytes());
    bytes
}

fn extensible(channels: u16, bits: u16, mask: u32, data1: u32, data2: u16, data3: u16) -> Vec<u8> {
    let mut bytes = header(0xFFFE, channels, 48000, channels * (bits / 8), bits, 22);
    bytes.extend_from_slice(&bits.to_le_bytes());
    bytes.extend_from_slice(&mask.to_le_bytes());
    bytes.extend_from_slice(&data1.to_le_bytes());
    bytes.extend_from_slice(&data2.to_le_bytes());
    bytes.extend_from_slice(&data3.to_le_bytes());
    bytes.extend_from_slice(&[0x80, 0x00, 0x00, 0xaa, 0x00, 0x38, 0x9b, 0x71]);
    bytes
}

fn from_float_bits(bits: u32) -> f32 {
    f32::from_bits(bits)
}

fn from_pcm(value: i32, scale_bits: u8) -> f32 {
    value as f32 / (1u64 << scale_bits) as f32
}

#[test]
fn reads_numbers_low_byte_first() {
    let bytes = [0x34, 0x12, 0x78, 0x56, 0xff, 0xff, 0xff, 0x7f, 0x00, 0x80];
    assert_eq!(read_u16(&bytes, 0), 0x1234);
    assert_eq!(read_u16(&bytes, 1), 0x7812);
    assert_eq!(read_u32(&bytes, 0), 0x5678_1234);
    assert_eq!(read_u32(&bytes, 4), 0x7fff_ffff);
    assert_eq!(read_i16(&bytes, 4), -1);
    assert_eq!(read_i16(&bytes, 8), i16::MIN);
    assert_eq!(read_i16(&bytes, 6), i16::MAX);
    assert_eq!(read_i32(&bytes, 4), i32::MAX);
    assert_eq!(read_i32(&bytes, 6), i32::from_le_bytes([0xff, 0x7f, 0x00, 0x80]));
    assert_eq!(read_i32(&[0, 0, 0, 0x80], 0), i32::MIN);
    assert_eq!(read_i32(&[0xff, 0xff, 0xff, 0xff], 0), -1);
}

#[test]
fn reads_agree_with_std_on_every_16_bit_value() {
    for value in 0..=u16::MAX {
        let bytes = value.to_le_bytes();
        assert_eq!(read_u16(&bytes, 0), value);
        assert_eq!(read_i16(&bytes, 0), i16::from_le_bytes(bytes));
    }
}

#[test]
fn parses_a_float_header() {
    let bytes = header(3, 2, 48000, 8, 32, 0);
    let format = WaveFormat::parse(&bytes).unwrap();
    assert_eq!(
        format,
        WaveFormat {
            format_tag: 3,
            channels: 2,
            samples_per_sec: 48000,
            avg_bytes_per_sec: 384000,
            block_align: 8,
            bits_per_sample: 32,
            extra_size: 0,
            extension: None,
        }
    );
    assert_eq!(format.encoding(), SampleEncoding::Float32);
    assert_eq!(format.packet_bytes(480), 3840);
}

#[test]
fn parses_an_extensible_header() {
    let bytes = extensible(6, 32, 0x3f, 3, 0, 0x10);
    assert_eq!(bytes.len(), 40);
    let format = WaveFormat::parse(&bytes).unwrap();
    assert_eq!(format.format_tag, 0xFFFE);
    assert_eq!(format.channels, 6);
    assert_eq!(format.extra_size, 22);
    assert_eq!(
        format.extension,
        Some(WaveFormatExtension {
            valid_bits_per_sample: 32,
            channel_mask: 0x3f,
            sub_format: SubFormat { data1: 3, data2: 0, data3: 0x10 },
        })
    );
    assert_eq!(format.encoding(), SampleEncoding::Float32);
}

#[test]
fn short_headers_are_refused() {
    assert_eq!(WaveFormat::parse(&[]), None);
    assert_eq!(WaveFormat::parse(&header(3, 2, 48000, 8, 32, 0)[..17]), None);
    let long = extensible(2, 16, 3, 1, 0, 0x10);
    assert_eq!(WaveFormat::parse(&long[..39]), None);
    assert_eq!(WaveFormat::parse(&long[..18]), None);
    assert!(WaveFormat::parse(&long).is_some());
}

#[test]
fn trailing_bytes_are_ignored() {
    let mut bytes = header(1, 2, 44100, 4, 16, 0);
    bytes.extend_from_slice(&[9, 9, 9]);
    let format = WaveFormat::parse(&bytes).unwrap();
    assert_eq!(format.channels, 2);
    assert_eq!(format.extension, None);
}

#[test]
fn encoding_follows_tag_and_sub_format() {
    let encoding = |bytes: Vec<u8>| WaveFormat::parse(&bytes).unwrap().encoding();
    assert_eq!(encoding(header(3, 2, 48000, 8, 32, 0)), SampleEncoding::Float32);
    assert_eq!(encoding(header(1, 2, 48000, 4, 16, 0)), SampleEncoding::Pcm16);
    assert_eq!(encoding(header(1, 2, 48000, 8, 32, 0)), SampleEncoding::Pcm16);
    assert_eq!(encoding(header(2, 2, 48000, 4, 16, 0)), SampleEncoding::Unsupported);
    assert_eq!(encoding(header(0, 2, 48000, 4, 16, 0)), SampleEncoding::Unsupported);
    assert_eq!(encoding(extensible(2, 32, 3, 3, 0, 0x10)), SampleEncoding::Float32);
    assert_eq!(encoding(extensible(2, 16, 3, 1, 0, 0x10)), SampleEncoding::Pcm16);
    assert_eq!(encoding(extensible(2, 32, 3, 1, 0, 0x10)), SampleEncoding::Pcm32);
    assert_eq!(encoding(extensible(2, 24, 3, 1, 0, 0x10)), SampleEncoding::Unsupported);
    assert_eq!(encoding(extensible(2, 16, 3, 2, 0, 0x10)), SampleEncoding::Unsupported);
    assert_eq!(encoding(extensible(2, 16, 3, 1, 1, 0x10)), SampleEncoding::Unsupported);
    assert_eq!(encoding(extensible(2, 16, 3, 1, 0, 0x11)), SampleEncoding::Unsupported);
    assert_eq!(encoding(extensible(2, 32, 3, 3, 0, 0x11)), SampleEncoding::Unsupported);
}

#[test]
fn mix_format_gives_channels_and_mask() {
    assert_eq!(parse_mix_format(&header(3, 2, 48000, 8, 32, 0)), (Some(2), None));
    assert_eq!(parse_mix_format(&extensible(8, 32, 0x63f, 3, 0, 0x10)), (Some(8), Some(0x63f)));
    assert_eq!(parse_mix_format(&[]), (None, None));
    assert_eq!(parse_mix_format(&extensible(8, 32, 0x63f, 3, 0, 0x10)[..30]), (None, None));
}

#[test]
fn header_length_counts_the_extra_bytes() {
    assert_eq!(WAVE_FORMAT_LEN, 18);
    assert_eq!(WAVE_FORMAT_EXTENSIBLE_LEN, 40);
    assert_eq!(header_len(0), 18);
    assert_eq!(header_len(22), 40);
    assert_eq!(header_len(u16::MAX), 18 + 65535);
}

#[test]
fn packet_bytes_do_not_overflow() {
    let format = WaveFormat::parse(&header(3, 2, 48000, u16::MAX, 32, 0)).unwrap();
    assert_eq!(format.packet_bytes(u32::MAX), u32::MAX as u64 * u16::MAX as u64);
    assert_eq!(format.packet_bytes(0), 0);
}

#[test]
fn decodes_float_samples() {
    let mut bytes = Vec::new();
    for sample in [1.0f32, -0.5, 0.25, 0.0] {
        bytes.extend_from_slice(&sample.to_le_bytes());
    }
    let samples = decode_samples(SampleEncoding::Float32, &bytes, &from_float_bits, &from_pcm);
    assert_eq!(samples, vec![1.0, -0.5, 0.25, 0.0]);
}

#[test]
fn decodes_pcm16_scaled_by_full_scale() {
    let mut bytes = Vec::new();
    for sample in [0x4000i16, -0x8000, 0x7fff, 0, -1] {
        bytes.extend_from_slice(&sample.to_le_bytes());
    }
    let samples = decode_samples(SampleEncoding::Pcm16, &bytes, &from_float_bits, &from_pcm);
    assert_eq!(samples, vec![0.5, -1.0, 32767.0 / 32768.0, 0.0, -1.0 / 32768.0]);
}

#[test]
fn decodes_pcm32_scaled_by_full_scale() {
    let mut bytes = Vec::new();
    for sample in [0x4000_0000i32, i32::MIN, 0, -0x2000_0000] {
        bytes.extend_from_slice(&sample.to_le_bytes());
    }
    let samples = decode_samples(SampleEncoding::Pcm32, &bytes, &from_float_bits, &from_pcm);
    assert_eq!(samples, vec![0.5, -1.0, 0.0, -0.25]);
}

#[test]
fn decoder_hands_over_value_and_scale() {
    let seen = decode_samples(
        SampleEncoding::Pcm16,
        &[0x01, 0x00, 0xff, 0xff, 0x00, 0x80],
        &|_| (0i32, 0u8),
        &|value, bits| (value, bits),
    );
    assert_eq!(seen, vec![(1, 15), (-1, 15), (-32768, 15)]);
    let seen = decode_samples(
        SampleEncoding::Pcm32,
        &[0x01, 0x00, 0x00, 0x00, 0xff, 0xff, 0xff, 0xff],
        &|_| (0i32, 0u8),
        &|value, bits| (value, bits),
    );
    assert_eq!(seen, vec![(1, 31), (-1, 31)]);
    let seen = decode_samples(
        SampleEncoding::Float32,
        &[0x78, 0x56, 0x34, 0x12],
        &|bits| bits,
        &|_, _| 0u32,
    );
    assert_eq!(seen, vec![0x1234_5678]);
    assert_eq!(PCM16_SCALE_BITS, 15);
    assert_eq!(PCM32_SCALE_BITS, 31);
}

#[test]
fn unsupported_encoding_decodes_to_nothing() {
    let samples =
        decode_samples(SampleEncoding::Unsupported, &[1, 2, 3, 4], &from_float_bits, &from_pcm);
    assert_eq!(samples, Vec::<f32>::new());
}

#[test]
fn torn_samples_are_not_decoded() {
    let bytes = [0x00, 0x40, 0x00, 0x40, 0x00];
    assert_eq!(
        decode_samples(SampleEncoding::Pcm16, &bytes, &from_float_bits, &from_pcm),
        vec![0.5, 0.5]
    );
    assert_eq!(
        decode_samples(SampleEncoding::Pcm32, &bytes, &from_float_bits, &from_pcm).len(),
        1
    );
    assert_eq!(
        decode_samples(SampleEncoding::Float32, &bytes[..3], &from_float_bits, &from_pcm),
        Vec::<f32>::new()
    );
    assert_eq!(
        decode_samples(SampleEncoding::Pcm16, &[], &from_float_bits, &from_pcm),
        Vec::<f32>::new()
    );
}

fn to_float_bits(sample: f32) -> u32 {
    sample.to_bits()
}

fn to_pcm(sample: f32, scale_bits: u8) -> i32 {
    (sample * (1u64 << scale_bits) as f32).round() as i32
}

#[test]
fn encodes_float_samples() {
    let bytes =
        encode_samples(SampleEncoding::Float32, &[1.0f32, -0.5], &to_float_bits, &to_pcm);
    let mut expected = Vec::new();
    expected.extend_from_slice(&1.0f32.to_le_bytes());
    expected.extend_from_slice(&(-0.5f32).to_le_bytes());
    assert_eq!(bytes, expected);
}

#[test]
fn encodes_pcm16_with_clamping() {
    let bytes = encode_samples(
        SampleEncoding::Pcm16,
        &[0.5f32, -1.0, 1.0, -2.0, 0.0],
        &to_float_bits,
        &to_pcm,
    );
    let mut expected = Vec::new();
    for value in [0x4000i16, i16::MIN, i16::MAX, i16::MIN, 0] {
        expected.extend_from_slice(&value.to_le_bytes());
    }
    assert_eq!(bytes, expected);
}

#[test]
fn encodes_pcm32() {
    let bytes =
        encode_samples(SampleEncoding::Pcm32, &[0.5f32, -1.0, -0.25], &to_float_bits, &to_pcm);
    let mut expected = Vec::new();
    for value in [0x4000_0000i32, i32::MIN, -0x2000_0000] {
        expected.extend_from_slice(&value.to_le_bytes());
    }
    assert_eq!(bytes, expected);
}

#[test]
fn unsupported_encoding_encodes_to_nothing() {
    assert_eq!(
        encode_samples(SampleEncoding::Unsupported, &[0.5f32, 1.0], &to_float_bits, &to_pcm),
        Vec::<u8>::new()
    );
    assert_eq!(
        encode_samples(SampleEncoding::Pcm16, &[], &to_float_bits, &to_pcm),
        Vec::<u8>::new()
    );
}

#[test]
fn encoder_writes_every_integer_as_std_does() {
    let identity = |value: i32, _bits: u8| value;
    let no_bits = |_value: i32| 0u32;
    let values = [0, 1, -1, 255, 256, -256, 32767, -32768, 65535, 0x1234_5678, i32::MAX, i32::MIN];
    let bytes = encode_samples(SampleEncoding::Pcm32, &values, &no_bits, &identity);
    let expected: Vec<u8> = values.iter().flat_map(|v| v.to_le_bytes()).collect();
    assert_eq!(bytes, expected);
    let bytes = encode_samples(SampleEncoding::Pcm16, &values, &no_bits, &identity);
    let expected: Vec<u8> =
        values.iter().flat_map(|v| clamp_to_i16(*v).to_le_bytes()).collect();
    assert_eq!(bytes, expected);
    let bits = [0u32, 1, 0xff, 0x100, 0xffff_ffff, 0x8000_0000, 0x1234_5678];
    let bytes = encode_samples(SampleEncoding::Float32, &bits, &|b: u32| b, &|_, _| 0);
    let expected: Vec<u8> = bits.iter().flat_map(|v| v.to_le_bytes()).collect();
    assert_eq!(bytes, expected);
}

#[test]
fn clamp_keeps_values_in_range_and_cuts_the_rest() {
    assert_eq!(clamp_to_i16(0), 0);
    assert_eq!(clamp_to_i16(32767), 32767);
    assert_eq!(clamp_to_i16(32768), 32767);
    assert_eq!(clamp_to_i16(-32768), -32768);
    assert_eq!(clamp_to_i16(-32769), -32768);
    assert_eq!(clamp_to_i16(i32::MAX), i16::MAX);
    assert_eq!(clamp_to_i16(i32::MIN), i16::MIN);
}

#[test]
fn decoding_what_was_encoded_gives_the_samples_back() {
    let samples = [0.5f32, -0.25, 0.0, -1.0, 0.125];
    for encoding in [SampleEncoding::Float32, SampleEncoding::Pcm16, SampleEncoding::Pcm32] {
        let bytes = encode_samples(encoding, &samples, &to_float_bits, &to_pcm);
        let decoded = decode_samples(encoding, &bytes, &from_float_bits, &from_pcm);
        assert_eq!(decoded, samples.to_vec());
    }
}
