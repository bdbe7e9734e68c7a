//! A decoder of 16-bit little-endian PCM packets.
use crate::media::format::{AudioCodecId, AudioTrackFormat};
use crate::media::frame::{AudioBuffer, AudioSamples, DecodedFrame};
use crate::media::packet::Packet;
use crate::media::time::{fits_i64, rescaled_value, Rounding};
use crate::media::track::TrackId;
use crate::ports::decoder::{DecodeError, DecodeInput, Decoder, ReceiveResult, SubmitResult};
use crate::wav::le_u16;
use vstd::prelude::*;

verus! {

/// The samples that little-endian 16-bit PCM bytes encode: sample `i` is
/// bytes `2i` and `2i + 1` read as a two's complement number.
pub open spec fn pcm_samples(bytes: Seq<u8>) -> Seq<i16> {
    Seq::new(bytes.len() / 2, |i: int| le_u16(bytes, 2 * i) as i16)
}

/// Why a PCM format cannot be decoded, if it cannot: only 16-bit PCM, with a
/// positive rate and one or two channels, is supported.
pub open spec fn pcm_format_check(format: AudioTrackFormat) -> Option<DecodeError> {
    if format.codec() != AudioCodecId::PcmS16Le {
        Some(DecodeError::Unsupported)
    } else if format.channel_count() == 0 || format.sample_rate() == 0 {
        Some(DecodeError::InvalidData)
    } else if format.channel_count() != 1 && format.channel_count() != 2 {
        Some(DecodeError::Unsupported)
    } else {
        None
    }
}

/// The presentation time in nanoseconds of a packet's timestamp, rounded
/// toward zero, if it has one and it fits.
pub open spec fn packet_pts_nanos(packet: Packet) -> Option<int> {
    match packet.pts() {
        None => None,
        Some(t) => {
            let v = rescaled_value(
                t.ticks() as int,
                t.time_base().numerator() as int,
                t.time_base().denominator() as int,
                1,
                1_000_000_000,
                Rounding::TowardZero,
            );
            if fits_i64(v) {
                Some(v)
            } else {
                None
            }
        },
    }
}

/// Whether decoding `packet` in `format` fails: on an unsupported format, on
/// bytes that are not whole frames, or on a missing or unrepresentable
/// presentation time.
pub open spec fn pcm_decode_error(packet: Packet, format: AudioTrackFormat) -> Option<DecodeError> {
    match pcm_format_check(format) {
        Some(e) => Some(e),
        None => if packet.bytes().len() % (format.channel_count() * 2) as nat != 0 {
            Some(DecodeError::InvalidData)
        } else if packet_pts_nanos(packet) is None {
            Some(DecodeError::InvalidData)
        } else {
            None
        },
    }
}

/// Whether `frame` is the decoding of `packet` in `format`.
pub open spec fn is_pcm_decoding(
    frame: DecodedFrame<AudioBuffer>,
    packet: Packet,
    format: AudioTrackFormat,
) -> bool {
    &&& frame.track_id() == packet.track_id()
    &&& Some(frame.pts().nanoseconds() as int) == packet_pts_nanos(packet)
    &&& frame.spec_payload().sample_rate() == format.sample_rate()
    &&& frame.spec_payload().channel_count() == format.channel_count()
    &&& frame.spec_payload().spec_samples() matches AudioSamples::I16(v) && v@ == pcm_samples(
        packet.bytes(),
    )
}

/// Decodes one packet of 16-bit little-endian PCM into a frame.
pub fn decode_pcm_packet(packet: Packet, format: &AudioTrackFormat) -> (r: Result<
    DecodedFrame<AudioBuffer>,
    DecodeError,
>)
    ensures
        match pcm_decode_error(packet, *format) {
            Some(e) => r matches Err(x) && x == e,
            None => r matches Ok(frame) && is_pcm_decoding(frame, packet, *format),
        },
{
    if format.codec() != AudioCodecId::PcmS16Le {
        return Err(DecodeError::Unsupported);
    }
    let channels = format.channel_count();
    let sample_rate = format.sample_rate();
    if channels == 0 || sample_rate == 0 {
        return Err(DecodeError::InvalidData);
    }
    if channels != 1 && channels != 2 {
        return Err(DecodeError::Unsupported);
    }
    let bytes = packet.data();
    let bytes_per_frame = channels as usize * 2;
    if bytes.len() % bytes_per_frame != 0 {
        return Err(DecodeError::InvalidData);
    }
    let pts = match packet.pts() {
        Some(timestamp) => match timestamp.to_media_time(Rounding::TowardZero) {
            Ok(value) => value,
            Err(_) => return Err(DecodeError::InvalidData),
        },
        None => return Err(DecodeError::InvalidData),
    };
    let count = bytes.len() / 2;
    let mut samples: Vec<i16> = Vec::with_capacity(count);
    let mut i: usize = 0;
    while i < count
        invariant
            count == bytes@.len() / 2,
            bytes@.len() <= usize::MAX,
            i <= count,
            samples@ == pcm_samples(bytes@).subrange(0, i as int),
        decreases count - i,
    {
        let low = bytes[2 * i] as u16;
        let high = bytes[2 * i + 1] as u16;
        let sample = (low + high * 256) as i16;
        samples.push(sample);
        proof {
            assert(samples@ =~= pcm_samples(bytes@).subrange(0, i + 1));
        }
        i = i + 1;
    }
    proof {
        assert(samples@ =~= pcm_samples(bytes@));
        vstd::arithmetic::div_mod::lemma_fundamental_div_mod(bytes@.len() as int, 2);
        vstd::arithmetic::div_mod::lemma_fundamental_div_mod(
            bytes@.len() as int,
            bytes_per_frame as int,
        );
        let c = channels as int;
        let q = bytes@.len() as int / (2 * c);
        assert(bytes@.len() == 2 * (c * q)) by (nonlinear_arith)
            requires
                bytes@.len() == (2 * c) * q,
        ;
        vstd::arithmetic::div_mod::lemma_div_multiples_vanish(c * q, 2);
        vstd::arithmetic::div_mod::lemma_mod_multiples_basic(q, c);
        assert(c * q == q * c) by (nonlinear_arith);
    }
    let track_id = packet.track_id();
    let buffer = match AudioBuffer::new(sample_rate, channels, AudioSamples::I16(samples)) {
        Ok(value) => value,
        Err(_) => return Err(DecodeError::InvalidData),
    };
    Ok(DecodedFrame::new(track_id, pts, buffer))
}

/// A decoder of one PCM track; it holds at most one decoded frame.
pub struct PcmDecoder {
    track_id: TrackId,
    format: AudioTrackFormat,
    pending_output: Option<DecodedFrame<AudioBuffer>>,
    input_ended: bool,
    taken: Ghost<Seq<DecodeInput>>,
    flushes: Ghost<nat>,
    offered: Ghost<Seq<DecodeInput>>,
    answers: Ghost<Seq<ReceiveResult<AudioBuffer>>>,
}

impl PcmDecoder {
    pub closed spec fn spec_track_id(&self) -> TrackId {
        self.track_id
    }

    pub closed spec fn spec_format(&self) -> AudioTrackFormat {
        self.format
    }

    /// The decoded frame waiting to be received.
    pub closed spec fn pending(&self) -> Option<DecodedFrame<AudioBuffer>> {
        self.pending_output
    }

    /// Whether the two decoders are for the same track and format, hold the
    /// same waiting frame, agree on the end of the stream and took the same
    /// inputs.
    pub open spec fn same_decoding(&self, other: PcmDecoder) -> bool {
        &&& self.spec_track_id() == other.spec_track_id()
        &&& self.spec_format() == other.spec_format()
        &&& self.pending() == other.pending()
        &&& self.input_ended() == other.input_ended()
        &&& self.taken_inputs() == other.taken_inputs()
    }

    /// Whether the end of the stream was submitted.
    pub closed spec fn input_ended(&self) -> bool {
        self.input_ended
    }

    /// A decoder for `track_id` in `format`, which must be supported.
    pub fn new(track_id: TrackId, format: AudioTrackFormat) -> (r: Result<PcmDecoder, DecodeError>)
        ensures
            match pcm_format_check(format) {
                Some(e) => r matches Err(x) && x == e,
                None => r matches Ok(d) && d.spec_track_id() == track_id && d.spec_format()
                    == format && d.pending() is None && !d.input_ended() && d.taken_inputs()
                    == Seq::<DecodeInput>::empty(),
            },
    {
        if format.codec() != AudioCodecId::PcmS16Le {
            return Err(DecodeError::Unsupported);
        }
        if format.sample_rate() == 0 || format.channel_count() == 0 {
            return Err(DecodeError::InvalidData);
        }
        if format.channel_count() != 1 && format.channel_count() != 2 {
            return Err(DecodeError::Unsupported);
        }
        Ok(
            PcmDecoder {
                track_id,
                format,
                pending_output: None,
                input_ended: false,
                taken: Ghost(Seq::empty()),
                flushes: Ghost(0),
                offered: Ghost(Seq::empty()),
                answers: Ghost(Seq::empty()),
            },
        )
    }
}

impl Decoder for PcmDecoder {
    type Output = AudioBuffer;

    closed spec fn taken_inputs(&self) -> Seq<DecodeInput> {
        self.taken@
    }

    closed spec fn flush_count(&self) -> nat {
        self.flushes@
    }

    closed spec fn offered_inputs(&self) -> Seq<DecodeInput> {
        self.offered@
    }

    closed spec fn received(&self) -> Seq<ReceiveResult<AudioBuffer>> {
        self.answers@
    }

    /// Takes a packet of this track when no frame is waiting, or the end of
    /// the stream; refuses all input after the end of the stream.
    fn submit(&mut self, input: DecodeInput) -> (r: Result<SubmitResult, DecodeError>)
        ensures
            final(self).spec_track_id() == old(self).spec_track_id(),
            final(self).spec_format() == old(self).spec_format(),
            old(self).input_ended() ==> (r matches Err(e) && e == DecodeError::InvalidState
                && final(self).same_decoding(*old(self))),
            !old(self).input_ended() ==> match input {
                DecodeInput::EndOfStream => r matches Ok(SubmitResult::Accepted)
                    && final(self).input_ended() && final(self).pending() == old(self).pending(),
                DecodeInput::Packet(packet) => if packet.track_id() != old(self).spec_track_id() {
                    r matches Err(e) && e == DecodeError::InvalidData && final(self).same_decoding(*old(self))
                } else if old(self).pending() is Some {
                    r matches Ok(SubmitResult::Backpressure(DecodeInput::Packet(p))) && p
                        == packet && final(self).same_decoding(*old(self))
                } else {
                    match pcm_decode_error(packet, old(self).spec_format()) {
                        Some(e) => r matches Err(x) && x == e && final(self).same_decoding(*old(self)),
                        None => {
                            &&& r matches Ok(SubmitResult::Accepted)
                            &&& !final(self).input_ended()
                            &&& final(self).pending() matches Some(frame) && is_pcm_decoding(
                                frame,
                                packet,
                                old(self).spec_format(),
                            )
                        },
                    }
                },
            },
    {
        let ghost given = input;
        self.offered = Ghost(self.offered@.push(given));
        if self.input_ended {
            return Err(DecodeError::InvalidState);
        }
        match input {
            DecodeInput::Packet(packet) => {
                if packet.track_id() != self.track_id {
                    return Err(DecodeError::InvalidData);
                }
                if self.pending_output.is_some() {
                    return Ok(SubmitResult::Backpressure(DecodeInput::Packet(packet)));
                }
                let frame = decode_pcm_packet(packet, &self.format)?;
                self.pending_output = Some(frame);
                self.taken = Ghost(self.taken@.push(given));
                Ok(SubmitResult::Accepted)
            },
            DecodeInput::EndOfStream => {
                self.input_ended = true;
                self.taken = Ghost(self.taken@.push(given));
                Ok(SubmitResult::Accepted)
            },
        }
    }

    /// Hands out the waiting frame; then, after the end of the stream, the
    /// end of the stream; otherwise nothing yet.
    fn receive(&mut self) -> (r: Result<ReceiveResult<AudioBuffer>, DecodeError>)
        ensures
            final(self).spec_track_id() == old(self).spec_track_id(),
            final(self).spec_format() == old(self).spec_format(),
            final(self).input_ended() == old(self).input_ended(),
            final(self).pending() is None,
            match old(self).pending() {
                Some(frame) => r matches Ok(ReceiveResult::Frame(f)) && f == frame,
                None => if old(self).input_ended() {
                    r matches Ok(ReceiveResult::EndOfStream)
                } else {
                    r matches Ok(ReceiveResult::NotReady)
                },
            },
    {
        let answer = if let Some(frame) = self.pending_output.take() {
            ReceiveResult::Frame(frame)
        } else if self.input_ended {
            ReceiveResult::EndOfStream
        } else {
            ReceiveResult::NotReady
        };
        self.answers = Ghost(self.answers@.push(answer));
        Ok(answer)
    }

    /// Drops the waiting frame and accepts input again.
    fn flush(&mut self) -> (r: Result<(), DecodeError>)
        ensures
            final(self).spec_track_id() == old(self).spec_track_id(),
            final(self).spec_format() == old(self).spec_format(),
            final(self).pending() is None,
            !final(self).input_ended(),
            r is Ok,
    {
        self.pending_output = None;
        self.input_ended = false;
        self.flushes = Ghost(self.flushes@ + 1);
        Ok(())
    }
}

} // verus!
