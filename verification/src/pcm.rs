//! Decoding of capture packets into samples, and encoding of samples into
//! the bytes of a render packet.
//!
//! Both are generic in the sample type. The decoder cuts the bytes of a
//! packet into numbers, low byte first, and the encoder lays numbers out as
//! bytes; turning a float bit pattern or a scaled integer into a sample, and
//! back, is done by functions of the caller.

use crate::wave_format::{
    le_i16, le_i32, le_u16, le_u32, read_i16, read_i32, read_u32, SampleEncoding,
};
use vstd::prelude::*;

verus! {

/// Binary digits after the point of a 16-bit PCM sample: full scale is 2^15.
pub const PCM16_SCALE_BITS: u8 = 15;

/// Binary digits after the point of a 32-bit PCM sample: full scale is 2^31.
pub const PCM32_SCALE_BITS: u8 = 31;

/// Number of samples that a packet of `len` bytes holds in the given
/// encoding. A trailing part of a sample is not counted.
pub open spec fn sample_count(encoding: SampleEncoding, len: nat) -> nat {
    match encoding {
        SampleEncoding::Float32 => len / 4,
        SampleEncoding::Pcm16 => len / 2,
        SampleEncoding::Pcm32 => len / 4,
        SampleEncoding::Unsupported => 0,
    }
}

/// Whether `sample` is what the caller's functions make of the sample at
/// position `index` of the packet.
pub open spec fn is_decoded_sample<T, F: Fn(u32) -> T, P: Fn(i32, u8) -> T>(
    encoding: SampleEncoding,
    bytes: Seq<u8>,
    from_float_bits: F,
    from_pcm: P,
    index: int,
    sample: T,
) -> bool {
    match encoding {
        SampleEncoding::Float32 => call_ensures(
            from_float_bits,
            (le_u32(bytes, 4 * index),),
            sample,
        ),
        SampleEncoding::Pcm16 => call_ensures(
            from_pcm,
            (le_i16(bytes, 2 * index) as i32, PCM16_SCALE_BITS),
            sample,
        ),
        SampleEncoding::Pcm32 => call_ensures(
            from_pcm,
            (le_i32(bytes, 4 * index), PCM32_SCALE_BITS),
            sample,
        ),
        SampleEncoding::Unsupported => false,
    }
}

/// Whether `samples` is the decoding of the packet `bytes`: one sample for
/// each whole sample that the bytes hold, in order, and none for an
/// unsupported encoding.
pub open spec fn is_decoding<T, F: Fn(u32) -> T, P: Fn(i32, u8) -> T>(
    encoding: SampleEncoding,
    bytes: Seq<u8>,
    from_float_bits: F,
    from_pcm: P,
    samples: Seq<T>,
) -> bool {
    &&& samples.len() == sample_count(encoding, bytes.len())
    &&& forall|i: int|
        0 <= i < samples.len() ==> is_decoded_sample(
            encoding,
            bytes,
            from_float_bits,
            from_pcm,
            i,
            #[trigger] samples[i],
        )
}

/// Decodes the bytes of a capture packet into samples.
///
/// A float sample is handed to `from_float_bits` as its bit pattern. A PCM
/// sample is handed to `from_pcm` as its integer value together with the
/// number of binary digits by which it is scaled: the sample stands for the
/// value divided by two to that power.
pub fn decode_samples<T, F: Fn(u32) -> T, P: Fn(i32, u8) -> T>(
    encoding: SampleEncoding,
    bytes: &[u8],
    from_float_bits: &F,
    from_pcm: &P,
) -> (samples: Vec<T>)
    requires
        forall|bits: u32| call_requires(*from_float_bits, (bits,)),
        forall|value: i32, scale_bits: u8| call_requires(*from_pcm, (value, scale_bits)),
    ensures
        is_decoding(encoding, bytes@, *from_float_bits, *from_pcm, samples@),
{
    let mut samples: Vec<T> = Vec::new();
    let width: usize = match encoding {
        SampleEncoding::Float32 => 4,
        SampleEncoding::Pcm16 => 2,
        SampleEncoding::Pcm32 => 4,
        SampleEncoding::Unsupported => {
            return samples;
        },
    };
    let count = bytes.len() / width;
    let mut index: usize = 0;
    while index < count
        invariant
            index <= count,
            bytes@.len() <= usize::MAX,
            count == bytes@.len() / (width as nat),
            count == sample_count(encoding, bytes@.len()),
            width == 2 || width == 4,
            encoding != SampleEncoding::Unsupported,
            width == 2 <==> encoding == SampleEncoding::Pcm16,
            forall|bits: u32| call_requires(*from_float_bits, (bits,)),
            forall|value: i32, scale_bits: u8| call_requires(*from_pcm, (value, scale_bits)),
            samples@.len() == index,
            forall|i: int|
                0 <= i < index ==> is_decoded_sample(
                    encoding,
                    bytes@,
                    *from_float_bits,
                    *from_pcm,
                    i,
                    #[trigger] samples@[i],
                ),
        decreases count - index,
    {
        assert(0 <= index * width && index * width + width <= bytes@.len()) by (nonlinear_arith)
            requires
                index < count,
                count == bytes@.len() / (width as nat),
                width == 2 || width == 4,
        ;
        let at = index * width;
        let sample = match encoding {
            SampleEncoding::Float32 => from_float_bits(read_u32(bytes, at)),
            SampleEncoding::Pcm16 => from_pcm(read_i16(bytes, at) as i32, PCM16_SCALE_BITS),
            _ => from_pcm(read_i32(bytes, at), PCM32_SCALE_BITS),
        };
        samples.push(sample);
        index = index + 1;
    }
    samples
}

/// Bytes of one sample in the given encoding; none for an unsupported one.
pub open spec fn sample_width(encoding: SampleEncoding) -> nat {
    match encoding {
        SampleEncoding::Float32 => 4,
        SampleEncoding::Pcm16 => 2,
        SampleEncoding::Pcm32 => 4,
        SampleEncoding::Unsupported => 0,
    }
}

/// The value nearest to `value` that a signed 16-bit sample can hold.
pub open spec fn clamped_to_i16(value: i32) -> i16 {
    if value > i16::MAX {
        i16::MAX
    } else if value < i16::MIN {
        i16::MIN
    } else {
        value as i16
    }
}

/// Whether the bytes at the place of sample `index` hold what the caller's
/// functions make of `sample`: the float bit pattern, or the scaled integer,
/// which for 16-bit PCM is clamped to the range of a sample.
pub open spec fn is_encoded_sample<T, F: Fn(T) -> u32, P: Fn(T, u8) -> i32>(
    encoding: SampleEncoding,
    sample: T,
    to_float_bits: F,
    to_pcm: P,
    bytes: Seq<u8>,
    index: int,
) -> bool {
    match encoding {
        SampleEncoding::Float32 => call_ensures(
            to_float_bits,
            (sample,),
            le_u32(bytes, 4 * index),
        ),
        SampleEncoding::Pcm16 => exists|value: i32|
            call_ensures(to_pcm, (sample, PCM16_SCALE_BITS), value) && le_i16(bytes, 2 * index)
                == clamped_to_i16(value),
        SampleEncoding::Pcm32 => call_ensures(
            to_pcm,
            (sample, PCM32_SCALE_BITS),
            le_i32(bytes, 4 * index),
        ),
        SampleEncoding::Unsupported => false,
    }
}

/// Whether `bytes` is the encoding of `samples`: the bytes of each sample,
/// in order, and none for an unsupported encoding.
pub open spec fn is_encoding<T, F: Fn(T) -> u32, P: Fn(T, u8) -> i32>(
    encoding: SampleEncoding,
    samples: Seq<T>,
    to_float_bits: F,
    to_pcm: P,
    bytes: Seq<u8>,
) -> bool {
    &&& bytes.len() == samples.len() * sample_width(encoding)
    &&& encoding != SampleEncoding::Unsupported ==> forall|i: int|
        0 <= i < samples.len() ==> is_encoded_sample(
            encoding,
            #[trigger] samples[i],
            to_float_bits,
            to_pcm,
            bytes,
            i,
        )
}

/// Appends an unsigned 16-bit number, low byte first.
fn push_u16(bytes: &mut Vec<u8>, value: u16)
    ensures
        final(bytes)@.len() == old(bytes)@.len() + 2,
        final(bytes)@.subrange(0, old(bytes)@.len() as int) == old(bytes)@,
        le_u16(final(bytes)@, old(bytes)@.len() as int) == value,
{
    let ghost before = bytes@;
    bytes.push((value % 256) as u8);
    bytes.push((value / 256) as u8);
    assert(bytes@.subrange(0, before.len() as int) =~= before);
}

/// Appends an unsigned 32-bit number, low byte first.
fn push_u32(bytes: &mut Vec<u8>, value: u32)
    ensures
        final(bytes)@.len() == old(bytes)@.len() + 4,
        final(bytes)@.subrange(0, old(bytes)@.len() as int) == old(bytes)@,
        le_u32(final(bytes)@, old(bytes)@.len() as int) == value,
{
    let ghost before = bytes@;
    bytes.push((value % 256) as u8);
    bytes.push(((value / 256) % 256) as u8);
    bytes.push(((value / 65536) % 256) as u8);
    bytes.push((value / 16777216) as u8);
    assert(bytes@.subrange(0, before.len() as int) =~= before);
}

/// Appends a signed 16-bit number in two's complement, low byte first.
fn push_i16(bytes: &mut Vec<u8>, value: i16)
    ensures
        final(bytes)@.len() == old(bytes)@.len() + 2,
        final(bytes)@.subrange(0, old(bytes)@.len() as int) == old(bytes)@,
        le_i16(final(bytes)@, old(bytes)@.len() as int) == value,
{
    let unsigned: u16 = if value < 0 {
        (value as i32 + 0x1_0000) as u16
    } else {
        value as u16
    };
    push_u16(bytes, unsigned);
}

/// Appends a signed 32-bit number in two's complement, low byte first.
fn push_i32(bytes: &mut Vec<u8>, value: i32)
    ensures
        final(bytes)@.len() == old(bytes)@.len() + 4,
        final(bytes)@.subrange(0, old(bytes)@.len() as int) == old(bytes)@,
        le_i32(final(bytes)@, old(bytes)@.len() as int) == value,
{
    let unsigned: u32 = if value < 0 {
        (value as i64 + 0x1_0000_0000) as u32
    } else {
        value as u32
    };
    push_u32(bytes, unsigned);
}

/// Clamps a scaled sample to the range of signed 16-bit PCM.
pub fn clamp_to_i16(value: i32) -> (clamped: i16)
    ensures
        clamped == clamped_to_i16(value),
{
    if value > i16::MAX as i32 {
        i16::MAX
    } else if value < i16::MIN as i32 {
        i16::MIN
    } else {
        value as i16
    }
}

/// Encodes samples into the bytes of a render packet.
///
/// For a float encoding `to_float_bits` gives the bit pattern of a sample.
/// For PCM `to_pcm` gives the integer value of a sample, scaled by two to the
/// power of the number of binary digits that it is handed; a value beyond
/// the range of 16-bit PCM is clamped.
pub fn encode_samples<T: Copy, F: Fn(T) -> u32, P: Fn(T, u8) -> i32>(
    encoding: SampleEncoding,
    samples: &[T],
    to_float_bits: &F,
    to_pcm: &P,
) -> (bytes: Vec<u8>)
    requires
        forall|sample: T| call_requires(*to_float_bits, (sample,)),
        forall|sample: T, scale_bits: u8| call_requires(*to_pcm, (sample, scale_bits)),
    ensures
        is_encoding(encoding, samples@, *to_float_bits, *to_pcm, bytes@),
{
    let mut bytes: Vec<u8> = Vec::new();
    if let SampleEncoding::Unsupported = encoding {
        assert(samples@.len() * sample_width(encoding) == 0) by (nonlinear_arith)
            requires
                sample_width(encoding) == 0,
        ;
        return bytes;
    }
    let ghost width = sample_width(encoding);
    let mut index: usize = 0;
    while index < samples.len()
        invariant
            index <= samples@.len(),
            encoding != SampleEncoding::Unsupported,
            width == sample_width(encoding),
            forall|sample: T| call_requires(*to_float_bits, (sample,)),
            forall|sample: T, scale_bits: u8| call_requires(*to_pcm, (sample, scale_bits)),
            bytes@.len() == index * width,
            forall|i: int|
                0 <= i < index ==> is_encoded_sample(
                    encoding,
                    #[trigger] samples@[i],
                    *to_float_bits,
                    *to_pcm,
                    bytes@,
                    i,
                ),
        decreases samples@.len() - index,
    {
        let ghost before = bytes@;
        let sample = samples[index];
        assert((index + 1) * width == index * width + width) by (nonlinear_arith);
        match encoding {
            SampleEncoding::Float32 => {
                push_u32(&mut bytes, to_float_bits(sample));
            },
            SampleEncoding::Pcm16 => {
                push_i16(&mut bytes, clamp_to_i16(to_pcm(sample, PCM16_SCALE_BITS)));
            },
            _ => {
                push_i32(&mut bytes, to_pcm(sample, PCM32_SCALE_BITS));
            },
        }
        proof {
            assert forall|i: int| 0 <= i < index implies is_encoded_sample(
                encoding,
                #[trigger] samples@[i],
                *to_float_bits,
                *to_pcm,
                bytes@,
                i,
            ) by {
                assert(0 <= i * width && i * width + width <= index * width) by (nonlinear_arith)
                    requires
                        0 <= i < index,
                        width >= 0,
                ;
                assert(forall|k: int|
                    0 <= k < before.len() ==> bytes@[k] == bytes@.subrange(
                        0,
                        before.len() as int,
                    )[k]);
            }
        }
        index = index + 1;
    }
    bytes
}

} // verus!
