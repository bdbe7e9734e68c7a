//! A demuxer of 16-bit PCM WAV files held in memory: one audio track, read
//! in packets of at most 1024 frames.
use crate::media::format::{AudioCodecId, AudioTrackFormat, TrackFormat};
use crate::media::packet::Packet;
use crate::media::time::{
    fits_i64, rescaled_value, MediaTime, Rounding, TimeBase, TimeSpan, Timestamp,
};
use crate::media::track::{TrackId, TrackInfo};
use crate::ports::demuxer::{DemuxError, Demuxer, ReadPacketResult};
use crate::wav::{
    has_tag, is_pcm_format, parse_pcm_format, pcm_format_spec, read_u32_le, riff_end_spec,
    slice_range, tag_at, le_u32,
};
use vstd::prelude::*;

verus! {

/// The most frames that one packet holds.
pub const FRAMES_PER_PACKET: u64 = 1024;

/// The layout of a WAV file that `data` holds, as (sample rate, channels,
/// start and end of the sample data), or why it is refused.
///
/// After the RIFF header the chunks are walked up to the end of the RIFF
/// body; exactly one `fmt ` chunk (with a payload of at least 16 bytes, a
/// valid PCM format) and exactly one `data` chunk must occur, and the sample
/// data must be a whole number of frames.
pub open spec fn wav_layout_spec(data: Seq<u8>) -> Result<(u32, u16, int, int), DemuxError> {
    match riff_end_spec(data) {
        Err(e) => Err(e),
        Ok(riff_end) => walk_chunks(data, 12, riff_end, None, None),
    }
}

/// The chunk walk of `wav_layout_spec` from `cursor`, having seen the format
/// `format` and the sample data range `samples` so far.
pub open spec fn walk_chunks(
    data: Seq<u8>,
    cursor: int,
    riff_end: int,
    format: Option<(u32, u16)>,
    samples: Option<(int, int)>,
) -> Result<(u32, u16, int, int), DemuxError>
    decreases riff_end - cursor,
{
    if cursor == riff_end {
        match (format, samples) {
            (Some((rate, channels)), Some((start, end))) => if (end - start) % (channels * 2)
                != 0 {
                Err(DemuxError::InvalidData)
            } else {
                Ok((rate, channels, start, end))
            },
            _ => Err(DemuxError::InvalidData),
        }
    } else if cursor > riff_end || riff_end - cursor < 8 {
        Err(DemuxError::InvalidData)
    } else {
        let chunk_size = le_u32(data, cursor + 4);
        let payload_start = cursor + 8;
        let payload_end = payload_start + chunk_size;
        let next_offset = payload_end + chunk_size % 2;
        if payload_end > riff_end || next_offset > riff_end {
            Err(DemuxError::InvalidData)
        } else if tag_at(data, cursor, 102, 109, 116, 32) {
            if format is Some {
                Err(DemuxError::Unsupported)
            } else if chunk_size < 16 {
                Err(DemuxError::InvalidData)
            } else {
                match pcm_format_spec(data.subrange(payload_start, payload_start + 16)) {
                    Err(e) => Err(e),
                    Ok(f) => walk_chunks(data, next_offset, riff_end, Some(f), samples),
                }
            }
        } else if tag_at(data, cursor, 100, 97, 116, 97) {
            if samples is Some {
                Err(DemuxError::Unsupported)
            } else {
                walk_chunks(
                    data,
                    next_offset,
                    riff_end,
                    format,
                    Some((payload_start, payload_end)),
                )
            }
        } else {
            walk_chunks(data, next_offset, riff_end, format, samples)
        }
    }
}

/// The chunk walk from `cursor` reads only bytes from `cursor` up to the end
/// of the RIFF body: two inputs that agree there are walked alike.
pub proof fn lemma_walk_reads_only_its_range(
    a: Seq<u8>,
    b: Seq<u8>,
    cursor: int,
    riff_end: int,
    format: Option<(u32, u16)>,
    samples: Option<(int, int)>,
)
    requires
        riff_end <= a.len(),
        riff_end <= b.len(),
        0 <= cursor,
        forall|i: int| cursor <= i < riff_end ==> a[i] == b[i],
    ensures
        walk_chunks(a, cursor, riff_end, format, samples) == walk_chunks(
            b,
            cursor,
            riff_end,
            format,
            samples,
        ),
    decreases riff_end - cursor,
{
    if cursor == riff_end || cursor > riff_end || riff_end - cursor < 8 {
    } else {
        let chunk_size = le_u32(a, cursor + 4);
        assert(chunk_size == le_u32(b, cursor + 4));
        let payload_start = cursor + 8;
        let payload_end = payload_start + chunk_size;
        let next_offset = payload_end + chunk_size % 2;
        if payload_end > riff_end || next_offset > riff_end {
        } else {
            assert(tag_at(a, cursor, 102, 109, 116, 32) == tag_at(b, cursor, 102, 109, 116, 32));
            assert(tag_at(a, cursor, 100, 97, 116, 97) == tag_at(b, cursor, 100, 97, 116, 97));
            if chunk_size >= 16 {
                assert(a.subrange(payload_start, payload_start + 16) =~= b.subrange(
                    payload_start,
                    payload_start + 16,
                ));
            }
            let f = if chunk_size >= 16 {
                pcm_format_spec(a.subrange(payload_start, payload_start + 16))
            } else {
                Err(DemuxError::InvalidData)
            };
            match f {
                Ok(v) => lemma_walk_reads_only_its_range(a, b, next_offset, riff_end, Some(v), samples),
                Err(_) => {},
            }
            lemma_walk_reads_only_its_range(a, b, next_offset, riff_end, format, samples);
            lemma_walk_reads_only_its_range(
                a,
                b,
                next_offset,
                riff_end,
                format,
                Some((payload_start, payload_end)),
            );
        }
    }
}

/// A `fmt ` chunk is read from its first 16 payload bytes alone. A chunk of
/// any size from 16 bytes on (such as the 18-byte header with an extension
/// size) whose first 16 bytes hold a PCM format is taken, and the walk goes
/// on past the whole chunk with that format; whatever follows the first 16
/// bytes inside the chunk changes nothing.
pub proof fn lemma_fmt_chunk_reads_its_first_16_bytes(
    a: Seq<u8>,
    b: Seq<u8>,
    cursor: int,
    riff_end: int,
    samples: Option<(int, int)>,
)
    requires
        riff_end <= a.len(),
        riff_end <= b.len(),
        0 <= cursor,
        cursor + 8 <= riff_end,
        tag_at(a, cursor, 102, 109, 116, 32),
        le_u32(a, cursor + 4) >= 16,
        cursor + 8 + le_u32(a, cursor + 4) + le_u32(a, cursor + 4) % 2 <= riff_end,
        forall|i: int|
            cursor <= i < riff_end && !(cursor + 24 <= i < cursor + 8 + le_u32(a, cursor + 4))
                ==> a[i] == b[i],
    ensures
        walk_chunks(a, cursor, riff_end, None, samples) == walk_chunks(
            b,
            cursor,
            riff_end,
            None,
            samples,
        ),
        pcm_format_spec(a.subrange(cursor + 8, cursor + 24)) matches Ok(f) ==> walk_chunks(
            a,
            cursor,
            riff_end,
            None,
            samples,
        ) == walk_chunks(
            a,
            cursor + 8 + le_u32(a, cursor + 4) + le_u32(a, cursor + 4) % 2,
            riff_end,
            Some(f),
            samples,
        ),
{
    let chunk_size = le_u32(a, cursor + 4);
    assert(chunk_size == le_u32(b, cursor + 4));
    let next_offset = cursor + 8 + chunk_size + chunk_size % 2;
    assert(tag_at(b, cursor, 102, 109, 116, 32));
    assert(a.subrange(cursor + 8, cursor + 24) =~= b.subrange(cursor + 8, cursor + 24));
    match pcm_format_spec(a.subrange(cursor + 8, cursor + 24)) {
        Ok(f) => lemma_walk_reads_only_its_range(a, b, next_offset, riff_end, Some(f), samples),
        Err(_) => {},
    }
}

/// How the walk treats one chunk that fits in the RIFF body, of `size`
/// payload bytes at `cursor`: the next chunk starts after the payload and,
/// when the size is odd, one pad byte. A chunk that is neither `fmt ` nor
/// `data` is skipped; the first `data` chunk gives the sample data range,
/// its whole payload; a second `fmt ` or `data` chunk is unsupported.
pub proof fn lemma_walk_steps_over_chunks(
    data: Seq<u8>,
    cursor: int,
    riff_end: int,
    format: Option<(u32, u16)>,
    samples: Option<(int, int)>,
)
    requires
        0 <= cursor,
        cursor + 8 <= riff_end,
        cursor + 8 + le_u32(data, cursor + 4) + le_u32(data, cursor + 4) % 2 <= riff_end,
    ensures
        ({
            let size = le_u32(data, cursor + 4);
            let next = cursor + 8 + size + size % 2;
            let walk = walk_chunks(data, cursor, riff_end, format, samples);
            &&& (!tag_at(data, cursor, 102, 109, 116, 32) && !tag_at(data, cursor, 100, 97, 116, 97))
                ==> walk == walk_chunks(data, next, riff_end, format, samples)
            &&& (tag_at(data, cursor, 100, 97, 116, 97) && !tag_at(data, cursor, 102, 109, 116, 32))
                ==> walk == (if samples is Some {
                Err(DemuxError::Unsupported)
            } else {
                walk_chunks(data, next, riff_end, format, Some((cursor + 8, cursor + 8 + size)))
            })
            &&& (tag_at(data, cursor, 102, 109, 116, 32) && format is Some) ==> walk == Err::<
                (u32, u16, int, int),
                DemuxError,
            >(DemuxError::Unsupported)
            &&& (tag_at(data, cursor, 102, 109, 116, 32) && format is None && size < 16) ==> walk
                == Err::<(u32, u16, int, int), DemuxError>(DemuxError::InvalidData)
        }),
{
}

/// At the end of the RIFF body the walk succeeds exactly when it saw a
/// format and a data chunk whose payload is a whole number of frames, and
/// then gives that format and the data range; a chunk that runs past the
/// body is invalid.
pub proof fn lemma_walk_ends_with_format_and_data(
    data: Seq<u8>,
    cursor: int,
    riff_end: int,
    format: Option<(u32, u16)>,
    samples: Option<(int, int)>,
)
    ensures
        cursor == riff_end ==> (walk_chunks(data, cursor, riff_end, format, samples) is Ok <==> match (
            format,
            samples,
        ) {
            (Some((_, channels)), Some((start, end))) => (end - start) % (channels * 2) == 0,
            _ => false,
        }),
        cursor == riff_end ==> (walk_chunks(data, cursor, riff_end, format, samples) matches Ok(
            (rate, channels, start, end),
        ) ==> format == Some((rate, channels)) && samples == Some((start, end))),
        (cursor < riff_end && (riff_end - cursor < 8 || cursor + 8 + le_u32(data, cursor + 4)
            > riff_end)) ==> walk_chunks(data, cursor, riff_end, format, samples) == Err::<
            (u32, u16, int, int),
            DemuxError,
        >(DemuxError::InvalidData),
{
}

/// The layout of a WAV file whose first chunk is `fmt `, of 16 bytes or
/// more, does not depend on the bytes of that chunk past its 16th.
pub proof fn lemma_layout_ignores_the_fmt_extension(a: Seq<u8>, b: Seq<u8>)
    requires
        a.len() == b.len(),
        riff_end_spec(a) matches Ok(riff_end) && 20 <= riff_end && tag_at(a, 12, 102, 109, 116, 32)
            && le_u32(a, 16) >= 16 && 20 + le_u32(a, 16) + le_u32(a, 16) % 2 <= riff_end,
        forall|i: int| 0 <= i < a.len() && !(36 <= i < 20 + le_u32(a, 16)) ==> a[i] == b[i],
    ensures
        wav_layout_spec(a) == wav_layout_spec(b),
{
    assert(riff_end_spec(a) == riff_end_spec(b));
    let riff_end = riff_end_spec(a)->Ok_0;
    lemma_fmt_chunk_reads_its_first_16_bytes(a, b, 12, riff_end, None);
}

/// The format and the sample data range of a WAV file.
#[derive(Debug)]
pub struct WavLayout {
    format: AudioTrackFormat,
    data_start: u64,
    data_end: u64,
}

impl WavLayout {
    pub closed spec fn spec_format(&self) -> AudioTrackFormat {
        self.format
    }

    pub closed spec fn data_start(&self) -> u64 {
        self.data_start
    }

    pub closed spec fn data_end(&self) -> u64 {
        self.data_end
    }

    /// Two bytes per sample and channel.
    pub fn bytes_per_frame(&self) -> (r: u64)
        ensures
            r == self.spec_format().channel_count() * 2,
    {
        self.format.channel_count() as u64 * 2
    }

    /// The number of whole frames of sample data.
    pub fn frame_count(&self) -> (r: u64)
        requires
            self.data_start() <= self.data_end(),
            self.spec_format().channel_count() > 0,
        ensures
            r == (self.data_end() - self.data_start()) / (self.spec_format().channel_count() * 2),
    {
        let data_len = self.data_end - self.data_start;
        data_len / self.bytes_per_frame()
    }
}

/// Reads the layout of the WAV file that `data` holds.
pub fn read_wav_layout(data: &[u8]) -> (r: Result<WavLayout, DemuxError>)
    ensures
        match wav_layout_spec(data@) {
            Ok((rate, channels, start, end)) => r matches Ok(l) && is_pcm_format(
                l.spec_format(),
                rate,
                channels,
            ) && l.data_start() == start && l.data_end() == end,
            Err(e) => r matches Err(x) && x == e,
        },
        r matches Ok(l) ==> {
            let channels = l.spec_format().channel_count();
            &&& l.data_start() <= l.data_end() <= data@.len()
            &&& channels == 1 || channels == 2
            &&& l.spec_format().sample_rate() > 0
            &&& (l.data_end() - l.data_start()) % (channels * 2) == 0
        },
{
    let len = data.len();
    let riff_end = read_riff_header(data)?;
    let mut cursor: usize = 12;
    let mut format: Option<AudioTrackFormat> = None;
    let mut samples: Option<(usize, usize)> = None;
    while cursor < riff_end
        invariant
            12 <= cursor <= riff_end <= data@.len(),
            riff_end_spec(data@) == Ok::<int, DemuxError>(riff_end as int),
            samples matches Some((s, e)) ==> s <= e <= riff_end,
            format matches Some(f) ==> (f.channel_count() == 1 || f.channel_count() == 2)
                && f.sample_rate() > 0,
            wav_layout_spec(data@) == walk_chunks(
                data@,
                cursor as int,
                riff_end as int,
                match format {
                    Some(f) => Some((f.sample_rate(), f.channel_count())),
                    None => None,
                },
                match samples {
                    Some((s, e)) => Some((s as int, e as int)),
                    None => None,
                },
            ),
            format matches Some(f) ==> f.codec() == AudioCodecId::PcmS16Le && f.config()
                == Seq::<u8>::empty(),
        decreases riff_end - cursor,
    {
        let chunk = match read_chunk_header(data, cursor, riff_end)? {
            Some(chunk) => chunk,
            None => return Err(DemuxError::InvalidData),
        };
        if chunk.is_fmt {
            if format.is_some() {
                return Err(DemuxError::Unsupported);
            }
            if chunk.payload_end - chunk.payload_start < 16 {
                return Err(DemuxError::InvalidData);
            }
            let payload = slice_range(data, chunk.payload_start, chunk.payload_start + 16);
            format = Some(parse_pcm_format(payload)?);
        } else if chunk.is_data {
            if samples.is_some() {
                return Err(DemuxError::Unsupported);
            }
            samples = Some((chunk.payload_start, chunk.payload_end));
        }
        cursor = chunk.next_offset;
    }
    let (format, (start, end)) = match (format, samples) {
        (Some(format), Some(range)) => (format, range),
        _ => return Err(DemuxError::InvalidData),
    };
    let bytes_per_frame = format.channel_count() as usize * 2;
    if (end - start) % bytes_per_frame != 0 {
        return Err(DemuxError::InvalidData);
    }
    Ok(WavLayout { format, data_start: start as u64, data_end: end as u64 })
}

/// Checks the 12-byte RIFF header and returns the end of the RIFF body.
pub fn read_riff_header(data: &[u8]) -> (r: Result<usize, DemuxError>)
    ensures
        match riff_end_spec(data@) {
            Ok(end) => r == Ok::<usize, DemuxError>(end as usize),
            Err(e) => r == Err::<usize, DemuxError>(e),
        },
{
    if data.len() < 12 {
        return Err(DemuxError::InvalidData);
    }
    if !has_tag(data, 0, 82, 73, 70, 70) || !has_tag(data, 8, 87, 65, 86, 69) {
        return Err(DemuxError::InvalidData);
    }
    let riff_size = read_u32_le(data, 4) as usize;
    let riff_end = match riff_size.checked_add(8) {
        Some(value) => value,
        None => return Err(DemuxError::InvalidData),
    };
    if riff_end < 12 || riff_end > data.len() {
        return Err(DemuxError::InvalidData);
    }
    Ok(riff_end)
}

/// A chunk header that lies wholly before the end of the RIFF body: the
/// kind of chunk, the payload range and where the next chunk starts.
#[derive(Debug)]
pub struct WavChunk {
    pub is_fmt: bool,
    pub is_data: bool,
    pub payload_start: usize,
    pub payload_end: usize,
    pub next_offset: usize,
}

/// Reads the chunk header at `chunk_start`; `None` at the end of the RIFF
/// body. The payload is not read.
pub fn read_chunk_header(data: &[u8], chunk_start: usize, riff_end: usize) -> (r: Result<
    Option<WavChunk>,
    DemuxError,
>)
    requires
        riff_end <= data@.len(),
    ensures
        chunk_start == riff_end ==> r matches Ok(None),
        chunk_start > riff_end ==> r == Err::<Option<WavChunk>, DemuxError>(
            DemuxError::InvalidData,
        ),
        chunk_start < riff_end ==> {
            if riff_end - chunk_start < 8 {
                r == Err::<Option<WavChunk>, DemuxError>(DemuxError::InvalidData)
            } else {
                let size = le_u32(data@, chunk_start + 4);
                let payload_end = chunk_start + 8 + size;
                let next_offset = payload_end + size % 2;
                if payload_end > riff_end || next_offset > riff_end {
                    r == Err::<Option<WavChunk>, DemuxError>(DemuxError::InvalidData)
                } else {
                    r matches Ok(Some(c)) && c.payload_start == chunk_start + 8 && c.payload_end
                        == payload_end && c.next_offset == next_offset && c.is_fmt == tag_at(
                        data@,
                        chunk_start as int,
                        102,
                        109,
                        116,
                        32,
                    ) && c.is_data == tag_at(data@, chunk_start as int, 100, 97, 116, 97)
                }
            }
        },
{
    if chunk_start == riff_end {
        return Ok(None);
    }
    if chunk_start > riff_end {
        return Err(DemuxError::InvalidData);
    }
    if riff_end - chunk_start < 8 {
        return Err(DemuxError::InvalidData);
    }
    let chunk_size = read_u32_le(data, chunk_start + 4) as usize;
    let payload_start = chunk_start + 8;
    let payload_end = match payload_start.checked_add(chunk_size) {
        Some(value) => value,
        None => return Err(DemuxError::InvalidData),
    };
    let next_offset = match payload_end.checked_add(chunk_size % 2) {
        Some(value) => value,
        None => return Err(DemuxError::InvalidData),
    };
    if payload_end > riff_end || next_offset > riff_end {
        return Err(DemuxError::InvalidData);
    }
    Ok(
        Some(
            WavChunk {
                is_fmt: has_tag(data, chunk_start, 102, 109, 116, 32),
                is_data: has_tag(data, chunk_start, 100, 97, 116, 97),
                payload_start,
                payload_end,
                next_offset,
            },
        ),
    )
}

/// The media time at which a seek to `target` nanoseconds resumes, in a
/// track of `total` frames at `sample_rate`: the frame at or before the
/// target (the target clamped to the start and to the end of the track),
/// converted back to nanoseconds, rounded down.
pub open spec fn seek_frame(target: int, sample_rate: int, total: int) -> int {
    let t = if target < 0 {
        0
    } else {
        target
    };
    let requested = t * sample_rate / 1_000_000_000;
    if requested < total {
        requested
    } else {
        total
    }
}

/// A seek never lands after its target (clamped to the start), and the
/// landing point is a nonnegative time that fits in an `i64`.
pub proof fn lemma_seek_lands_at_or_before_target(target: int, sample_rate: int, total: int)
    requires
        sample_rate > 0,
        total >= 0,
        target <= i64::MAX,
    ensures
        0 <= seek_frame(target, sample_rate, total),
        seek_frame(target, sample_rate, total) * 1_000_000_000 / sample_rate <= if target < 0 {
            0
        } else {
            target
        },
        0 <= seek_frame(target, sample_rate, total) * 1_000_000_000 / sample_rate,
{
    let t = if target < 0 {
        0
    } else {
        target
    };
    let frame = seek_frame(target, sample_rate, total);
    let requested = t * sample_rate / 1_000_000_000;
    assert(t * sample_rate >= 0) by (nonlinear_arith)
        requires
            t >= 0,
            sample_rate > 0,
    ;
    vstd::arithmetic::div_mod::lemma_fundamental_div_mod(t * sample_rate, 1_000_000_000);
    assert(requested >= 0) by {
        vstd::arithmetic::div_mod::lemma_div_pos_is_pos(t * sample_rate, 1_000_000_000);
    }
    assert(frame <= requested);
    assert(frame * 1_000_000_000 <= requested * 1_000_000_000) by (nonlinear_arith)
        requires
            frame <= requested,
    ;
    assert(requested * 1_000_000_000 <= t * sample_rate);
    assert(frame * 1_000_000_000 >= 0) by (nonlinear_arith)
        requires
            frame >= 0,
    ;
    vstd::arithmetic::div_mod::lemma_div_is_ordered(
        frame * 1_000_000_000,
        t * sample_rate,
        sample_rate,
    );
    vstd::arithmetic::div_mod::lemma_div_multiples_vanish(t, sample_rate);
    assert(t * sample_rate == sample_rate * t) by (nonlinear_arith);
    vstd::arithmetic::div_mod::lemma_div_pos_is_pos(frame * 1_000_000_000, sample_rate);
}

/// A seek lands on the last frame that starts at or before its target
/// (clamped to the start), or at the end of the track when the target lies
/// beyond it: never past the track's last frame boundary, and, short of the
/// end, less than one frame before the target.
pub proof fn lemma_seek_frame_choice(target: int, sample_rate: int, total: int)
    requires
        sample_rate > 0,
        total >= 0,
    ensures
        0 <= seek_frame(target, sample_rate, total) <= total,
        target <= 0 ==> seek_frame(target, sample_rate, total) == 0,
        seek_frame(target, sample_rate, total) * 1_000_000_000 <= (if target < 0 {
            0
        } else {
            target
        }) * sample_rate,
        seek_frame(target, sample_rate, total) < total ==> (if target < 0 {
            0
        } else {
            target
        }) * sample_rate < (seek_frame(target, sample_rate, total) + 1) * 1_000_000_000,
{
    let t = if target < 0 {
        0
    } else {
        target
    };
    let frame = seek_frame(target, sample_rate, total);
    let requested = t * sample_rate / 1_000_000_000;
    assert(t * sample_rate >= 0) by (nonlinear_arith)
        requires
            t >= 0,
            sample_rate > 0,
    ;
    vstd::arithmetic::div_mod::lemma_fundamental_div_mod(t * sample_rate, 1_000_000_000);
    vstd::arithmetic::div_mod::lemma_div_pos_is_pos(t * sample_rate, 1_000_000_000);
    assert(frame * 1_000_000_000 <= requested * 1_000_000_000) by (nonlinear_arith)
        requires
            frame <= requested,
    ;
    if target <= 0 {
        assert(t * sample_rate == 0) by (nonlinear_arith)
            requires
                t == 0,
        ;
        assert(requested == 0);
    }
    if frame < total {
        assert(frame == requested);
        assert((requested + 1) * 1_000_000_000 == requested * 1_000_000_000 + 1_000_000_000)
            by (nonlinear_arith);
        assert(requested * 1_000_000_000 == 1_000_000_000 * requested) by (nonlinear_arith);
    }
}

/// A demuxer of a 16-bit PCM WAV file held in memory.
pub struct WavDemuxer {
    bytes: Vec<u8>,
    layout: WavLayout,
    next_frame: u64,
    time_base: TimeBase,
    tracks: Vec<TrackInfo>,
    seeks: Ghost<Seq<MediaTime>>,
    reads: Ghost<Seq<ReadPacketResult>>,
    landings: Ghost<Seq<MediaTime>>,
}

impl WavDemuxer {
    #[verifier::type_invariant]
    spec fn well_formed(self) -> bool {
        let channels = self.layout.format.channel_count();
        let rate = self.layout.format.sample_rate();
        &&& self.layout.data_start <= self.layout.data_end <= self.bytes@.len()
        &&& channels == 1 || channels == 2
        &&& rate > 0
        &&& is_pcm_format(self.layout.format, rate, channels)
        &&& (self.layout.data_end - self.layout.data_start) % (channels * 2) == 0
        &&& self.next_frame <= self.frame_total()
        &&& self.time_base.numerator() == 1
        &&& self.time_base.denominator() == rate
        &&& self.tracks@.len() == 1
        &&& self.tracks@[0].id().value() == 0
        &&& self.tracks@[0].time_base() == self.time_base
        &&& self.tracks@[0].start_ticks() == Some(0i64)
        &&& self.tracks@[0].duration_ticks() == Some(self.frame_total() as u64)
        &&& self.tracks@[0].spec_format() matches TrackFormat::Audio(f) && is_pcm_format(
            f,
            rate,
            channels,
        )
    }

    /// The file's bytes.
    pub closed spec fn content(&self) -> Seq<u8> {
        self.bytes@
    }

    pub closed spec fn spec_sample_rate(&self) -> u32 {
        self.layout.format.sample_rate()
    }

    pub closed spec fn channels(&self) -> u16 {
        self.layout.format.channel_count()
    }

    pub closed spec fn data_start(&self) -> int {
        self.layout.data_start as int
    }

    pub closed spec fn data_end(&self) -> int {
        self.layout.data_end as int
    }

    /// The next frame that a read returns.
    pub closed spec fn next_frame(&self) -> int {
        self.next_frame as int
    }

    /// The number of frames of the track.
    pub closed spec fn frame_total(&self) -> int {
        (self.layout.data_end - self.layout.data_start) / (self.layout.format.channel_count()
            * 2) as int
    }

    /// The time base of the track: one tick per frame.
    pub closed spec fn spec_time_base(&self) -> TimeBase {
        self.time_base
    }

    pub closed spec fn track_list(&self) -> Seq<TrackInfo> {
        self.tracks@
    }

    /// The track has as many frames as whole frames of 16-bit samples fit
    /// in the data chunk.
    pub proof fn lemma_frame_total(&self)
        ensures
            self.frame_total() == (self.data_end() - self.data_start()) / (self.channels() * 2) as int,
    {
    }

    /// The frame count of any demuxer fits in an `i64`.
    proof fn lemma_frame_total_fits(&self)
        requires
            self.well_formed(),
        ensures
            0 <= self.frame_total() <= i64::MAX,
    {
        let len = (self.layout.data_end - self.layout.data_start) as int;
        let bpf = (self.layout.format.channel_count() * 2) as int;
        vstd::arithmetic::div_mod::lemma_div_is_ordered_by_denominator(len, 2, bpf);
        vstd::arithmetic::div_mod::lemma_div_is_ordered(len, u64::MAX as int, 2);
        vstd::arithmetic::div_mod::lemma_div_pos_is_pos(len, bpf);
    }

    /// Opens the WAV file held in `bytes`; reading starts at the first frame.
    pub fn from_bytes(bytes: Vec<u8>) -> (r: Result<WavDemuxer, DemuxError>)
        ensures
            match wav_layout_spec(bytes@) {
                Ok((rate, channels, start, end)) => r matches Ok(d) && d.content() == bytes@
                    && d.spec_sample_rate() == rate && d.channels() == channels && d.data_start()
                    == start && d.data_end() == end && d.next_frame() == 0
                    && d.spec_time_base().numerator() == 1 && d.spec_time_base().denominator()
                    == rate && rate > 0 && (channels == 1 || channels == 2) && start <= end
                    <= bytes@.len() && d.frame_total() == (end - start) / (channels * 2) as int
                    && d.seek_targets() == Seq::<MediaTime>::empty(),
                Err(e) => r matches Err(x) && x == e,
            },
    {
        let layout = read_wav_layout(bytes.as_slice())?;
        let rate = layout.format.sample_rate();
        let channels = layout.format.channel_count();
        let time_base = match TimeBase::from_hz(rate) {
            Ok(value) => value,
            Err(_) => return Err(DemuxError::InvalidData),
        };
        let duration_ticks = layout.frame_count();
        let track_format = AudioTrackFormat::new(AudioCodecId::PcmS16Le, rate, channels, Vec::new());
        let track_info = TrackInfo::new(
            TrackId::new(0),
            time_base,
            Some(0),
            Some(duration_ticks),
            TrackFormat::Audio(track_format),
        );
        let mut tracks: Vec<TrackInfo> = Vec::new();
        tracks.push(track_info);
        Ok(WavDemuxer { bytes, layout, next_frame: 0, time_base, tracks, seeks: Ghost(Seq::empty()), reads: Ghost(Seq::empty()), landings: Ghost(Seq::empty()) })
    }
}

impl Demuxer for WavDemuxer {
    open spec fn spec_tracks(&self) -> Seq<TrackInfo> {
        self.track_list()
    }

    closed spec fn seek_targets(&self) -> Seq<MediaTime> {
        self.seeks@
    }

    closed spec fn reads(&self) -> Seq<ReadPacketResult> {
        self.reads@
    }

    closed spec fn landings(&self) -> Seq<MediaTime> {
        self.landings@
    }

    /// The one audio track of the file.
    fn tracks(&self) -> (r: &[TrackInfo])
        ensures
            r@ == self.track_list(),
    {
        self.tracks.as_slice()
    }

    /// Reads the next packet: at most `FRAMES_PER_PACKET` frames from the
    /// next frame on, stamped with the frame index in a time base of one
    /// tick per frame; at the end of the samples, the end of the stream.
    fn read_packet(&mut self) -> (r: Result<ReadPacketResult, DemuxError>)
        ensures
            final(self).content() == old(self).content(),
            final(self).data_start() == old(self).data_start(),
            final(self).data_end() == old(self).data_end(),
            final(self).spec_sample_rate() == old(self).spec_sample_rate(),
            final(self).channels() == old(self).channels(),
            final(self).spec_time_base() == old(self).spec_time_base(),
            old(self).spec_sample_rate() > 0,
            old(self).frame_total() == (old(self).data_end() - old(self).data_start()) / (old(self).channels() * 2) as int,
            old(self).next_frame() <= old(self).frame_total(),
            old(self).spec_time_base().numerator() == 1,
            old(self).spec_time_base().denominator() == old(self).spec_sample_rate(),
            old(self).next_frame() >= old(self).frame_total() ==> (r matches Ok(
                ReadPacketResult::EndOfStream,
            ) && final(self).next_frame() == old(self).next_frame()),
            old(self).next_frame() < old(self).frame_total() ==> final(self).next_frame() == old(self).next_frame() + (if old(self).frame_total() - old(self).next_frame() < 1024 {
                old(self).frame_total() - old(self).next_frame()
            } else {
                1024
            }),
            old(self).next_frame() < old(self).frame_total() ==> {
                let frames = if old(self).frame_total() - old(self).next_frame()
                    < FRAMES_PER_PACKET {
                    old(self).frame_total() - old(self).next_frame()
                } else {
                    FRAMES_PER_PACKET as int
                };
                let bpf = old(self).channels() * 2;
                let offset = old(self).data_start() + old(self).next_frame() * bpf;
                &&& final(self).next_frame() == old(self).next_frame() + frames
                &&& r matches Ok(ReadPacketResult::Packet(p)) && {
                    &&& p.bytes() == old(self).content().subrange(offset, offset + frames * bpf)
                    &&& p.track_id().value() == 0
                    &&& p.pts() matches Some(t) && t.ticks() == old(self).next_frame()
                        && t.time_base() == old(self).spec_time_base()
                    &&& p.dts() == p.pts()
                    &&& p.duration() matches Some(d) && d.ticks() == frames && d.time_base()
                        == old(self).spec_time_base()
                    &&& p.keyframe()
                }
            },
    {
        proof {
            use_type_invariant(&*self);
            self.lemma_frame_total_fits();
        }
        let total_frames = self.layout.frame_count();
        if self.next_frame >= total_frames {
            self.reads = Ghost(self.reads@.push(ReadPacketResult::EndOfStream));
            return Ok(ReadPacketResult::EndOfStream);
        }
        let remaining_frames = total_frames - self.next_frame;
        let frames_to_read = if remaining_frames < FRAMES_PER_PACKET {
            remaining_frames
        } else {
            FRAMES_PER_PACKET
        };
        let bytes_per_frame = self.layout.bytes_per_frame();
        proof {
            let bpf = bytes_per_frame as int;
            let len = (self.layout.data_end - self.layout.data_start) as int;
            vstd::arithmetic::div_mod::lemma_fundamental_div_mod(len, bpf);
            assert((self.next_frame + frames_to_read) * bpf <= total_frames * bpf) by (nonlinear_arith)
                requires
                    self.next_frame + frames_to_read <= total_frames,
                    bpf > 0,
            ;
            assert(total_frames * bpf == len) by (nonlinear_arith)
                requires
                    len == bpf * total_frames + len % bpf,
                    len % bpf == 0,
            ;
            assert((self.next_frame + frames_to_read) * bpf == self.next_frame * bpf
                + frames_to_read * bpf) by (nonlinear_arith);
            assert(self.next_frame * bpf >= 0) by (nonlinear_arith)
                requires
                    bpf > 0,
            ;
            assert(frames_to_read * bpf >= 0) by (nonlinear_arith)
                requires
                    bpf > 0,
            ;
        }
        let _content_len = self.bytes.len();
        let byte_offset = self.layout.data_start + self.next_frame * bytes_per_frame;
        let packet_len = frames_to_read * bytes_per_frame;
        let start = byte_offset as usize;
        let end = (byte_offset + packet_len) as usize;
        let packet_data = vstd::slice::slice_to_vec(slice_range(self.bytes.as_slice(), start, end));
        let start_ticks = self.next_frame as i64;
        let timestamp = Timestamp::new(start_ticks, self.time_base);
        let duration = TimeSpan::new(frames_to_read, self.time_base);
        let packet = Packet::new(
            TrackId::new(0),
            packet_data,
            Some(timestamp),
            Some(timestamp),
            Some(duration),
            true,
        );
        self.next_frame = self.next_frame + frames_to_read;
        let answer = ReadPacketResult::Packet(packet);
        self.reads = Ghost(self.reads@.push(answer));
        Ok(answer)
    }

    /// Moves to the frame at or before `target` (clamped to the track) and
    /// returns its media time; never fails.
    fn seek(&mut self, target: MediaTime) -> (r: Result<MediaTime, DemuxError>)
        ensures
            final(self).content() == old(self).content(),
            final(self).data_start() == old(self).data_start(),
            final(self).data_end() == old(self).data_end(),
            final(self).spec_sample_rate() == old(self).spec_sample_rate(),
            final(self).channels() == old(self).channels(),
            final(self).spec_time_base() == old(self).spec_time_base(),
            old(self).spec_sample_rate() > 0,
            old(self).frame_total() == (old(self).data_end() - old(self).data_start()) / (old(self).channels() * 2) as int,
            final(self).next_frame() <= final(self).frame_total(),
            r matches Ok(landed) ==> 0 <= landed.nanoseconds() <= (if target.nanoseconds() < 0 {
                0
            } else {
                target.nanoseconds()
            }),
            ({
                let frame = seek_frame(
                    target.nanoseconds() as int,
                    old(self).spec_sample_rate() as int,
                    old(self).frame_total(),
                );
                &&& final(self).next_frame() == frame
                &&& r matches Ok(landed) && landed.nanoseconds() == frame * 1_000_000_000
                    / (old(self).spec_sample_rate() as int)
            }),
    {
        proof {
            use_type_invariant(&*self);
            self.lemma_frame_total_fits();
        }
        self.seeks = Ghost(self.seeks@.push(target));
        let rate = self.layout.format.sample_rate();
        let target_ns: i64 = if target.nanoseconds() < 0 {
            0
        } else {
            target.nanoseconds()
        };
        proof {
            vstd::arithmetic::mul::lemma_mul_upper_bound(
                target_ns as int,
                i64::MAX as int,
                rate as int,
                u32::MAX as int,
            );
            assert(target_ns * rate >= 0) by (nonlinear_arith)
                requires
                    target_ns >= 0,
                    rate > 0,
            ;
            lemma_seek_lands_at_or_before_target(
                target.nanoseconds() as int,
                rate as int,
                self.frame_total(),
            );
        }
        let requested_frame = (target_ns as i128) * (rate as i128) / 1_000_000_000;
        let total_frames = self.layout.frame_count();
        let next_frame: u64 = if requested_frame < total_frames as i128 {
            requested_frame as u64
        } else {
            total_frames
        };
        let ticks = next_frame as i64;
        proof {
            assert(ticks as int * 1 * 1_000_000_000 == next_frame as int * 1_000_000_000);
            assert(rate as int * 1 == rate as int);
        }
        let landed = match Timestamp::new(ticks, self.time_base).to_media_time(Rounding::TowardZero) {
            Ok(value) => value,
            Err(_) => return Err(DemuxError::InvalidData),
        };
        self.next_frame = next_frame;
        self.landings = Ghost(self.landings@.push(landed));
        Ok(landed)
    }
}

} // verus!
