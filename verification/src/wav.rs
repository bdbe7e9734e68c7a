//! The RIFF/WAVE container, restricted to 16-bit little-endian PCM: the
//! layout of its bytes and the parsing of its format chunk.
use crate::media::format::{AudioCodecId, AudioTrackFormat};
use crate::ports::demuxer::DemuxError;
use vstd::prelude::*;

verus! {

/// The little-endian 16-bit number at `off`.
pub open spec fn le_u16(data: Seq<u8>, off: int) -> int {
    data[off] + 256 * data[off + 1]
}

/// The little-endian 32-bit number at `off`.
pub open spec fn le_u32(data: Seq<u8>, off: int) -> int {
    le_u16(data, off) + 65536 * le_u16(data, off + 2)
}

/// Whether the four bytes at `off` are `a b c d`.
pub open spec fn tag_at(data: Seq<u8>, off: int, a: u8, b: u8, c: u8, d: u8) -> bool {
    &&& data[off] == a
    &&& data[off + 1] == b
    &&& data[off + 2] == c
    &&& data[off + 3] == d
}

/// Reads the little-endian 16-bit number at `off`.
pub fn read_u16_le(data: &[u8], off: usize) -> (r: u16)
    requires
        off + 2 <= data@.len(),
    ensures
        r == le_u16(data@, off as int),
{
    data[off] as u16 + (data[off + 1] as u16) * 256
}

/// Reads the little-endian 32-bit number at `off`.
pub fn read_u32_le(data: &[u8], off: usize) -> (r: u32)
    requires
        off + 4 <= data@.len(),
    ensures
        r == le_u32(data@, off as int),
{
    let len = data.len();
    let low = read_u16_le(data, off) as u32;
    let high = read_u16_le(data, off + 2) as u32;
    low + high * 65536
}

/// Whether the four bytes at `off` are `a b c d`.
pub fn has_tag(data: &[u8], off: usize, a: u8, b: u8, c: u8, d: u8) -> (r: bool)
    requires
        off + 4 <= data@.len(),
    ensures
        r == tag_at(data@, off as int, a, b, c, d),
{
    data[off] == a && data[off + 1] == b && data[off + 2] == c && data[off + 3] == d
}

/// The sample rate and channel count that a PCM format chunk payload
/// declares, or why it is refused.
///
/// The payload holds, little-endian: format tag (2 bytes), channels (2),
/// sample rate (4), byte rate (4), block align (2), bits per sample (2).
/// Only plain PCM (tag 1) at 16 bits, mono or stereo, is supported. The
/// block align must be two bytes per channel and the byte rate must be the
/// sample rate times the block align.
pub open spec fn pcm_format_spec(data: Seq<u8>) -> Result<(u32, u16), DemuxError> {
    if data.len() < 16 {
        Err(DemuxError::InvalidData)
    } else {
        let format_tag = le_u16(data, 0);
        let channels = le_u16(data, 2);
        let sample_rate = le_u32(data, 4);
        let byte_rate = le_u32(data, 8);
        let block_align = le_u16(data, 12);
        let bits_per_sample = le_u16(data, 14);
        if format_tag != 1 || bits_per_sample != 16 {
            Err(DemuxError::Unsupported)
        } else if channels == 0 || sample_rate == 0 {
            Err(DemuxError::InvalidData)
        } else if channels != 1 && channels != 2 {
            Err(DemuxError::Unsupported)
        } else if block_align != channels * 2 {
            Err(DemuxError::InvalidData)
        } else if sample_rate * block_align > u32::MAX {
            Err(DemuxError::InvalidData)
        } else if byte_rate != sample_rate * block_align {
            Err(DemuxError::InvalidData)
        } else {
            Ok((sample_rate as u32, channels as u16))
        }
    }
}

/// A format chunk payload is accepted exactly when it declares plain PCM
/// (tag 1) at 16 bits, mono or stereo, at a nonzero rate, with two bytes per
/// channel per frame and a byte rate of rate times block align; it then
/// gives its own rate and channel count.
pub proof fn lemma_pcm_format_accepted_exactly(data: Seq<u8>)
    ensures
        pcm_format_spec(data) is Ok <==> {
            &&& data.len() >= 16
            &&& le_u16(data, 0) == 1
            &&& le_u16(data, 14) == 16
            &&& (le_u16(data, 2) == 1 || le_u16(data, 2) == 2)
            &&& le_u32(data, 4) > 0
            &&& le_u16(data, 12) == le_u16(data, 2) * 2
            &&& le_u32(data, 8) == le_u32(data, 4) * le_u16(data, 12)
        },
        pcm_format_spec(data) matches Ok((rate, channels)) ==> rate == le_u32(data, 4) && channels
            == le_u16(data, 2),
{
    if data.len() >= 16 {
        assert(0 <= data[8] && data[8] <= 255 && 0 <= data[9] <= 255 && 0 <= data[10] <= 255 && 0
            <= data[11] <= 255);
        assert(le_u32(data, 8) <= u32::MAX);
    }
}

/// Whether `f` is the 16-bit PCM format with this rate and channel count
/// and no codec configuration.
pub open spec fn is_pcm_format(f: AudioTrackFormat, sample_rate: u32, channels: u16) -> bool {
    &&& f.codec() == AudioCodecId::PcmS16Le
    &&& f.sample_rate() == sample_rate
    &&& f.channel_count() == channels
    &&& f.config() == Seq::<u8>::empty()
}

/// Parses the payload of a PCM format chunk.
pub fn parse_pcm_format(data: &[u8]) -> (r: Result<AudioTrackFormat, DemuxError>)
    ensures
        match pcm_format_spec(data@) {
            Ok((rate, channels)) => r matches Ok(f) && is_pcm_format(f, rate, channels),
            Err(e) => r == Err::<AudioTrackFormat, DemuxError>(e),
        },
{
    if data.len() < 16 {
        return Err(DemuxError::InvalidData);
    }
    let format_tag = read_u16_le(data, 0);
    let channels = read_u16_le(data, 2);
    let sample_rate = read_u32_le(data, 4);
    let byte_rate = read_u32_le(data, 8);
    let block_align = read_u16_le(data, 12);
    let bits_per_sample = read_u16_le(data, 14);

    if format_tag != 1 || bits_per_sample != 16 {
        return Err(DemuxError::Unsupported);
    }
    if channels == 0 || sample_rate == 0 {
        return Err(DemuxError::InvalidData);
    }
    if channels != 1 && channels != 2 {
        return Err(DemuxError::Unsupported);
    }
    let expected_align = channels * 2;
    if block_align != expected_align {
        return Err(DemuxError::InvalidData);
    }
    let expected_byte_rate = match sample_rate.checked_mul(block_align as u32) {
        Some(value) => value,
        None => return Err(DemuxError::InvalidData),
    };
    if byte_rate != expected_byte_rate {
        return Err(DemuxError::InvalidData);
    }
    Ok(AudioTrackFormat::new(AudioCodecId::PcmS16Le, sample_rate, channels, Vec::new()))
}

/// The end of the RIFF body that the 12-byte header of `data` declares, or
/// why the header is refused: the file must start with `RIFF`, a 32-bit
/// size and `WAVE`, and the declared body must hold the `WAVE` tag and fit
/// in `data`.
pub open spec fn riff_end_spec(data: Seq<u8>) -> Result<int, DemuxError> {
    if data.len() < 12 {
        Err(DemuxError::InvalidData)
    } else if !tag_at(data, 0, 82, 73, 70, 70) || !tag_at(data, 8, 87, 65, 86, 69) {
        Err(DemuxError::InvalidData)
    } else {
        let riff_end = 8 + le_u32(data, 4);
        if riff_end < 12 || riff_end > data.len() {
            Err(DemuxError::InvalidData)
        } else {
            Ok(riff_end)
        }
    }
}

/// Walks the chunks from `cursor` to `riff_end` and returns the payload
/// range of the first chunk whose id is `fmt `, or why the walk fails.
///
/// Each chunk is an id (4 bytes), a 32-bit size and the payload, padded to
/// an even length; header, payload and padding must lie before `riff_end`.
pub open spec fn find_fmt_chunk(data: Seq<u8>, cursor: int, riff_end: int) -> Result<
    (int, int),
    DemuxError,
>
    decreases riff_end - cursor,
{
    if cursor >= riff_end {
        Err(DemuxError::InvalidData)
    } else if riff_end - cursor < 8 {
        Err(DemuxError::InvalidData)
    } else {
        let chunk_size = le_u32(data, cursor + 4);
        let payload_start = cursor + 8;
        let payload_end = payload_start + chunk_size;
        let padding = chunk_size % 2;
        if chunk_size > riff_end - payload_start {
            Err(DemuxError::InvalidData)
        } else if padding > riff_end - payload_end {
            Err(DemuxError::InvalidData)
        } else if tag_at(data, cursor, 102, 109, 116, 32) {
            Ok((payload_start, payload_end))
        } else {
            find_fmt_chunk(data, payload_end + padding, riff_end)
        }
    }
}

/// The format of a whole WAV file, read from its first `fmt ` chunk.
pub open spec fn wav_format_spec(data: Seq<u8>) -> Result<(u32, u16), DemuxError> {
    match riff_end_spec(data) {
        Err(e) => Err(e),
        Ok(riff_end) => match find_fmt_chunk(data, 12, riff_end) {
            Err(e) => Err(e),
            Ok((start, end)) => pcm_format_spec(data.subrange(start, end)),
        },
    }
}

/// Parses the audio format of a whole WAV file held in memory.
pub fn parse_wav_format(data: &[u8]) -> (r: Result<AudioTrackFormat, DemuxError>)
    ensures
        match wav_format_spec(data@) {
            Ok((rate, channels)) => r matches Ok(f) && is_pcm_format(f, rate, channels),
            Err(e) => r == Err::<AudioTrackFormat, DemuxError>(e),
        },
{
    if data.len() < 12 {
        return Err(DemuxError::InvalidData);
    }
    if !has_tag(data, 0, 82, 73, 70, 70) || !has_tag(data, 8, 87, 65, 86, 69) {
        return Err(DemuxError::InvalidData);
    }
    let riff_size = read_u32_le(data, 4) as usize;
    let riff_end = match 8usize.checked_add(riff_size) {
        Some(value) => value,
        None => return Err(DemuxError::InvalidData),
    };
    if riff_end < 12 || riff_end > data.len() {
        return Err(DemuxError::InvalidData);
    }
    let mut cursor: usize = 12;
    while cursor < riff_end
        invariant
            12 <= cursor,
            riff_end <= data@.len(),
            riff_end_spec(data@) == Ok::<int, DemuxError>(riff_end as int),
            find_fmt_chunk(data@, 12, riff_end as int) == find_fmt_chunk(
                data@,
                cursor as int,
                riff_end as int,
            ),
        decreases riff_end - cursor,
    {
        if riff_end - cursor < 8 {
            return Err(DemuxError::InvalidData);
        }
        let chunk_size = read_u32_le(data, cursor + 4) as usize;
        let payload_start = cursor + 8;
        if chunk_size > riff_end - payload_start {
            return Err(DemuxError::InvalidData);
        }
        let payload_end = payload_start + chunk_size;
        let padding = chunk_size % 2;
        if padding > riff_end - payload_end {
            return Err(DemuxError::InvalidData);
        }
        if has_tag(data, cursor, 102, 109, 116, 32) {
            let payload = slice_range(data, payload_start, payload_end);
            return parse_pcm_format(payload);
        }
        cursor = payload_end + padding;
    }
    Err(DemuxError::InvalidData)
}

/// The bytes of `data` from `start` to `end`.
pub fn slice_range(data: &[u8], start: usize, end: usize) -> (r: &[u8])
    requires
        start <= end <= data@.len(),
    ensures
        r@ == data@.subrange(start as int, end as int),
{
    vstd::slice::slice_subrange(data, start, end)
}

} // verus!
