//! The capture format header: the byte layout that the audio subsystem uses
//! to describe a stream, and the sample encodings that the router reads.

use vstd::prelude::*;

verus! {

/// Format tag of integer PCM.
pub const WAVE_FORMAT_PCM: u16 = 1;

/// Format tag of IEEE floating point samples.
pub const WAVE_FORMAT_IEEE_FLOAT: u16 = 3;

/// Format tag of a header that carries an extension with a sub-format.
pub const WAVE_FORMAT_EXTENSIBLE: u16 = 0xFFFE;

/// Length in bytes of the basic header.
pub const WAVE_FORMAT_LEN: usize = 18;

/// Length in bytes of a header with its extension.
pub const WAVE_FORMAT_EXTENSIBLE_LEN: usize = 40;

/// Second and third field of the sub-format identifiers of PCM and of float.
pub const SUB_FORMAT_DATA2: u16 = 0x0000;

pub const SUB_FORMAT_DATA3: u16 = 0x0010;

/// The unsigned 16-bit number that two bytes at `at` hold, low byte first.
pub open spec fn le_u16(bytes: Seq<u8>, at: int) -> u16 {
    (bytes[at] as int + 256 * (bytes[at + 1] as int)) as u16
}

/// The unsigned 32-bit number that four bytes at `at` hold, low byte first.
pub open spec fn le_u32(bytes: Seq<u8>, at: int) -> u32 {
    (bytes[at] as int + 256 * (bytes[at + 1] as int) + 65536 * (bytes[at + 2] as int) + 16777216
        * (bytes[at + 3] as int)) as u32
}

/// The signed 16-bit number, in two's complement, that two bytes at `at` hold,
/// low byte first.
pub open spec fn le_i16(bytes: Seq<u8>, at: int) -> i16 {
    let unsigned = le_u16(bytes, at) as int;
    if unsigned >= 0x8000 {
        (unsigned - 0x1_0000) as i16
    } else {
        unsigned as i16
    }
}

/// The signed 32-bit number, in two's complement, that four bytes at `at`
/// hold, low byte first.
pub open spec fn le_i32(bytes: Seq<u8>, at: int) -> i32 {
    let unsigned = le_u32(bytes, at) as int;
    if unsigned >= 0x8000_0000 {
        (unsigned - 0x1_0000_0000) as i32
    } else {
        unsigned as i32
    }
}

/// Reads an unsigned 16-bit number, low byte first.
pub fn read_u16(bytes: &[u8], at: usize) -> (value: u16)
    requires
        at + 2 <= bytes@.len(),
    ensures
        value == le_u16(bytes@, at as int),
{
    let low: u16 = bytes[at] as u16;
    let high: u16 = bytes[at + 1] as u16;
    low + 256 * high
}

/// Reads an unsigned 32-bit number, low byte first.
pub fn read_u32(bytes: &[u8], at: usize) -> (value: u32)
    requires
        at + 4 <= bytes@.len(),
    ensures
        value == le_u32(bytes@, at as int),
{
    let b0: u32 = bytes[at] as u32;
    let b1: u32 = bytes[at + 1] as u32;
    let b2: u32 = bytes[at + 2] as u32;
    let b3: u32 = bytes[at + 3] as u32;
    b0 + 256 * b1 + 65536 * b2 + 16777216 * b3
}

/// Reads a signed 16-bit number in two's complement, low byte first.
pub fn read_i16(bytes: &[u8], at: usize) -> (value: i16)
    requires
        at + 2 <= bytes@.len(),
    ensures
        value == le_i16(bytes@, at as int),
{
    let unsigned: i32 = read_u16(bytes, at) as i32;
    if unsigned >= 0x8000 {
        (unsigned - 0x1_0000) as i16
    } else {
        unsigned as i16
    }
}

/// Reads a signed 32-bit number in two's complement, low byte first.
pub fn read_i32(bytes: &[u8], at: usize) -> (value: i32)
    requires
        at + 4 <= bytes@.len(),
    ensures
        value == le_i32(bytes@, at as int),
{
    let unsigned: i64 = read_u32(bytes, at) as i64;
    if unsigned >= 0x8000_0000 {
        (unsigned - 0x1_0000_0000) as i32
    } else {
        unsigned as i32
    }
}

/// The leading fields of a sub-format identifier. They tell PCM from float.
#[derive(Debug, Clone, Copy, PartialEq, Eq, Structural)]
pub struct SubFormat {
    pub data1: u32,
    pub data2: u16,
    pub data3: u16,
}

/// The extension of a header with the tag `WAVE_FORMAT_EXTENSIBLE`.
#[derive(Debug, Clone, Copy, PartialEq, Eq, Structural)]
pub struct WaveFormatExtension {
    pub valid_bits_per_sample: u16,
    /// Speaker positions of the channels, one bit each.
    pub channel_mask: u32,
    pub sub_format: SubFormat,
}

/// A capture format header.
#[derive(Debug, Clone, Copy, PartialEq, Eq)]
pub struct WaveFormat {
    pub format_tag: u16,
    pub channels: u16,
    pub samples_per_sec: u32,
    pub avg_bytes_per_sec: u32,
    /// Bytes of one frame: one sample for each channel.
    pub block_align: u16,
    pub bits_per_sample: u16,
    /// Bytes that follow the basic header.
    pub extra_size: u16,
    /// Present exactly if the tag is `WAVE_FORMAT_EXTENSIBLE`.
    pub extension: Option<WaveFormatExtension>,
}

/// How the samples of a stream are encoded.
#[derive(Debug, Clone, Copy, PartialEq, Eq, Structural)]
pub enum SampleEncoding {
    /// IEEE 32-bit floating point.
    Float32,
    /// Signed 16-bit integers; full scale is 2^15.
    Pcm16,
    /// Signed 32-bit integers; full scale is 2^31.
    Pcm32,
    /// An encoding that the router does not read.
    Unsupported,
}

/// The extension that the bytes of an extensible header hold.
pub open spec fn parsed_extension(bytes: Seq<u8>) -> WaveFormatExtension {
    WaveFormatExtension {
        valid_bits_per_sample: le_u16(bytes, 18),
        channel_mask: le_u32(bytes, 20),
        sub_format: SubFormat {
            data1: le_u32(bytes, 24),
            data2: le_u16(bytes, 28),
            data3: le_u16(bytes, 30),
        },
    }
}

/// The header that `bytes` hold: none where the bytes are too few for the
/// basic header, or for the extension that the tag announces.
pub open spec fn parsed_wave_format(bytes: Seq<u8>) -> Option<WaveFormat> {
    if bytes.len() < WAVE_FORMAT_LEN {
        None
    } else if le_u16(bytes, 0) == WAVE_FORMAT_EXTENSIBLE && bytes.len()
        < WAVE_FORMAT_EXTENSIBLE_LEN {
        None
    } else {
        Some(
            WaveFormat {
                format_tag: le_u16(bytes, 0),
                channels: le_u16(bytes, 2),
                samples_per_sec: le_u32(bytes, 4),
                avg_bytes_per_sec: le_u32(bytes, 8),
                block_align: le_u16(bytes, 12),
                bits_per_sample: le_u16(bytes, 14),
                extra_size: le_u16(bytes, 16),
                extension: if le_u16(bytes, 0) == WAVE_FORMAT_EXTENSIBLE {
                    Some(parsed_extension(bytes))
                } else {
                    None
                },
            },
        )
    }
}

/// The encoding that a sub-format and a sample width stand for.
pub open spec fn sub_format_encoding(sub_format: SubFormat, bits_per_sample: u16) -> SampleEncoding {
    if sub_format.data2 != SUB_FORMAT_DATA2 || sub_format.data3 != SUB_FORMAT_DATA3 {
        SampleEncoding::Unsupported
    } else if sub_format.data1 == WAVE_FORMAT_IEEE_FLOAT as u32 {
        SampleEncoding::Float32
    } else if sub_format.data1 == WAVE_FORMAT_PCM as u32 {
        if bits_per_sample == 16 {
            SampleEncoding::Pcm16
        } else if bits_per_sample == 32 {
            SampleEncoding::Pcm32
        } else {
            SampleEncoding::Unsupported
        }
    } else {
        SampleEncoding::Unsupported
    }
}

impl WaveFormat {
    /// Reads a header from its bytes.
    pub fn parse(bytes: &[u8]) -> (format: Option<WaveFormat>)
        ensures
            format == parsed_wave_format(bytes@),
    {
        if bytes.len() < WAVE_FORMAT_LEN {
            return None;
        }
        let format_tag = read_u16(bytes, 0);
        let extension = if format_tag == WAVE_FORMAT_EXTENSIBLE {
            if bytes.len() < WAVE_FORMAT_EXTENSIBLE_LEN {
                return None;
            }
            Some(
                WaveFormatExtension {
                    valid_bits_per_sample: read_u16(bytes, 18),
                    channel_mask: read_u32(bytes, 20),
                    sub_format: SubFormat {
                        data1: read_u32(bytes, 24),
                        data2: read_u16(bytes, 28),
                        data3: read_u16(bytes, 30),
                    },
                },
            )
        } else {
            None
        };
        Some(
            WaveFormat {
                format_tag,
                channels: read_u16(bytes, 2),
                samples_per_sec: read_u32(bytes, 4),
                avg_bytes_per_sec: read_u32(bytes, 8),
                block_align: read_u16(bytes, 12),
                bits_per_sample: read_u16(bytes, 14),
                extra_size: read_u16(bytes, 16),
                extension,
            },
        )
    }

    /// The encoding of the samples: float for the float tag, 16-bit PCM for
    /// the PCM tag, what the sub-format says for an extensible header, and
    /// unsupported for every other tag.
    pub open spec fn spec_encoding(&self) -> SampleEncoding {
        if self.format_tag == WAVE_FORMAT_IEEE_FLOAT {
            SampleEncoding::Float32
        } else if self.format_tag == WAVE_FORMAT_PCM {
            SampleEncoding::Pcm16
        } else if self.format_tag == WAVE_FORMAT_EXTENSIBLE {
            match self.extension {
                Some(extension) => sub_format_encoding(
                    extension.sub_format,
                    self.bits_per_sample,
                ),
                None => SampleEncoding::Unsupported,
            }
        } else {
            SampleEncoding::Unsupported
        }
    }

    /// The encoding of the samples.
    #[verifier::when_used_as_spec(spec_encoding)]
    pub fn encoding(&self) -> (encoding: SampleEncoding)
        ensures
            encoding == self.spec_encoding(),
    {
        if self.format_tag == WAVE_FORMAT_IEEE_FLOAT {
            SampleEncoding::Float32
        } else if self.format_tag == WAVE_FORMAT_PCM {
            SampleEncoding::Pcm16
        } else if self.format_tag == WAVE_FORMAT_EXTENSIBLE {
            match self.extension {
                Some(extension) => {
                    let sub_format = extension.sub_format;
                    if sub_format.data2 != SUB_FORMAT_DATA2 || sub_format.data3
                        != SUB_FORMAT_DATA3 {
                        SampleEncoding::Unsupported
                    } else if sub_format.data1 == 3 {
                        SampleEncoding::Float32
                    } else if sub_format.data1 == 1 {
                        if self.bits_per_sample == 16 {
                            SampleEncoding::Pcm16
                        } else if self.bits_per_sample == 32 {
                            SampleEncoding::Pcm32
                        } else {
                            SampleEncoding::Unsupported
                        }
                    } else {
                        SampleEncoding::Unsupported
                    }
                },
                None => SampleEncoding::Unsupported,
            }
        } else {
            SampleEncoding::Unsupported
        }
    }

    /// Bytes of a packet of `frames` frames.
    pub fn packet_bytes(&self, frames: u32) -> (bytes: u64)
        ensures
            bytes == frames * self.block_align,
    {
        assert(frames * self.block_align <= 0xFFFF_FFFF * 0xFFFF) by (nonlinear_arith)
            requires
                frames <= 0xFFFF_FFFF,
                self.block_align <= 0xFFFF,
        ;
        frames as u64 * self.block_align as u64
    }
}

/// Bytes of a header that announces `extra_size` bytes behind its basic
/// part.
pub fn header_len(extra_size: u16) -> (len: usize)
    ensures
        len == WAVE_FORMAT_LEN + extra_size,
{
    WAVE_FORMAT_LEN + extra_size as usize
}

/// Reads the bytes of a mix format header and gives the channel count and,
/// for an extensible header, the channel mask. Bytes that hold no header
/// give neither.
pub fn parse_mix_format(bytes: &[u8]) -> (info: (Option<u16>, Option<u32>))
    ensures
        info == match parsed_wave_format(bytes@) {
            Some(format) => (
                Some(format.channels),
                match format.extension {
                    Some(extension) => Some(extension.channel_mask),
                    None => None,
                },
            ),
            None => (None, None),
        },
{
    match WaveFormat::parse(bytes) {
        Some(format) => {
            let mask = match format.extension {
                Some(extension) => Some(extension.channel_mask),
                None => None,
            };
            (Some(format.channels), mask)
        },
        None => (None, None),
    }
}

} // verus!
