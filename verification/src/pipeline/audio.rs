//! The audio branch of the pipeline: a bounded packet queue in front of a
//! decoder, whose frames go to an audio output.
use crate::media::frame::{AudioBuffer, DecodedFrame};
use crate::media::packet::Packet;
use crate::media::track::TrackId;
use crate::pipeline::epoch::{EpochItem, PlaybackEpoch};
use crate::pipeline::queue::{BoundedQueue, QueueError, QueuePushResult};
use crate::ports::audio_output::{
    AudioOutput, AudioOutputError, AudioPlaybackPosition, AudioSubmitResult,
};
use crate::ports::decoder::{DecodeError, DecodeInput, Decoder, ReceiveResult, SubmitResult};
use vstd::prelude::*;

verus! {

/// The phases of the audio branch, in the order they are passed.
#[derive(Debug, Clone, Copy, PartialEq, Eq, Structural)]
pub enum AudioPhase {
    /// Packets are accepted.
    Feeding,
    /// No more packets come; the queued ones are still being decoded.
    InputEnded,
    /// The decoder was told the stream ended and gives out its last frames.
    Draining,
    /// The decoder has given out everything.
    DecoderDrained,
}

/// The position of a phase in the order of phases.
pub open spec fn phase_rank(phase: AudioPhase) -> int {
    match phase {
        AudioPhase::Feeding => 0,
        AudioPhase::InputEnded => 1,
        AudioPhase::Draining => 2,
        AudioPhase::DecoderDrained => 3,
    }
}

/// What an enqueue did.
#[derive(Debug)]
pub enum AudioEnqueueResult {
    /// The packet is queued.
    Accepted,
    /// The queue is full; the item comes back.
    Backpressure(EpochItem<Packet>),
    /// The item belongs to another generation; it comes back untouched.
    EpochMismatch(EpochItem<Packet>),
}

/// What a step did.
#[derive(Debug, Clone, Copy, PartialEq, Eq, Structural)]
pub enum AudioStepResult {
    Progress,
    Blocked,
    DecoderDrained,
}

#[derive(Debug)]
pub enum AudioPipelineError {
    Queue(QueueError),
    Decode(DecodeError),
    Output(AudioOutputError),
    WrongTrack,
    InputClosed,
    UnexpectedDecoderEos,
}

/// The audio branch of one track, in one generation of the timeline.
pub struct AudioPipeline<D, O> {
    decoder: D,
    output: O,
    track_id: TrackId,
    epoch: PlaybackEpoch,
    packets: BoundedQueue<Packet>,
    pending_input: Option<DecodeInput>,
    pending_frame: Option<DecodedFrame<AudioBuffer>>,
    phase: AudioPhase,
}

impl<D, O> AudioPipeline<D, O> where D: Decoder<Output = AudioBuffer>, O: AudioOutput {
    /// The queue is well formed; once the decoder was told the stream ended,
    /// no input waits for it; the end of the stream waits only after every
    /// queued packet was handed over.
    pub closed spec fn wf(&self) -> bool {
        &&& self.packets.wf()
        &&& (self.phase == AudioPhase::Draining || self.phase == AudioPhase::DecoderDrained)
            ==> self.pending_input is None
        &&& self.pending_input matches Some(DecodeInput::EndOfStream) ==> self.phase
            == AudioPhase::InputEnded && self.packets@.len() == 0
        &&& forall|i: int|
            0 <= i < self.packets@.len() ==> (#[trigger] self.packets@[i]).track_id()
                == self.track_id
        &&& self.pending_input matches Some(DecodeInput::Packet(p)) ==> p.track_id()
            == self.track_id
        &&& self.pending_frame matches Some(f) ==> f.track_id() == self.track_id
    }

    /// Every packet in the queue, the packet waiting for the decoder and the
    /// frame waiting for the output belong to the branch's track.
    pub proof fn lemma_only_own_track(&self)
        requires
            self.wf(),
        ensures
            forall|i: int|
                0 <= i < self.queued().len() ==> (#[trigger] self.queued()[i]).track_id()
                    == self.spec_track_id(),
            self.pending_input() matches Some(DecodeInput::Packet(p)) ==> p.track_id()
                == self.spec_track_id(),
            self.pending_frame() matches Some(f) ==> f.track_id() == self.spec_track_id(),
    {
    }

    pub closed spec fn phase(&self) -> AudioPhase {
        self.phase
    }

    pub closed spec fn spec_epoch(&self) -> PlaybackEpoch {
        self.epoch
    }

    pub closed spec fn spec_track_id(&self) -> TrackId {
        self.track_id
    }

    /// The queued packets, oldest first.
    pub closed spec fn queued(&self) -> Seq<Packet> {
        self.packets@
    }

    pub closed spec fn capacity(&self) -> usize {
        self.packets.capacity()
    }

    /// The input that the decoder pushed back and that is retried first.
    pub closed spec fn pending_input(&self) -> Option<DecodeInput> {
        self.pending_input
    }

    /// The frame that the output pushed back and that is retried first.
    pub closed spec fn pending_frame(&self) -> Option<DecodedFrame<AudioBuffer>> {
        self.pending_frame
    }

    /// The inputs the branch's decoder has accepted, oldest first.
    pub closed spec fn handed(&self) -> Seq<DecodeInput> {
        self.decoder.taken_inputs()
    }

    /// Every input the branch handed to its decoder, whatever the answer,
    /// oldest first.
    pub closed spec fn offered(&self) -> Seq<DecodeInput> {
        self.decoder.offered_inputs()
    }

    /// The answers the branch's decoder gave when asked for output, oldest
    /// first.
    pub closed spec fn receipts(&self) -> Seq<ReceiveResult<AudioBuffer>> {
        self.decoder.received()
    }

    /// The frames the branch's output has accepted, oldest first.
    pub closed spec fn delivered(&self) -> Seq<DecodedFrame<AudioBuffer>> {
        self.output.accepted_frames()
    }

    /// Whether the branch's output plays.
    pub closed spec fn output_started(&self) -> bool {
        self.output.is_started()
    }

    /// How many times the branch's decoder was flushed.
    pub closed spec fn decoder_flushes(&self) -> nat {
        self.decoder.flush_count()
    }

    /// The positions the branch's output reported, oldest first.
    pub closed spec fn positions(&self) -> Seq<AudioPlaybackPosition> {
        self.output.reported_positions()
    }

    /// The answers the branch's output gave on whether it drained, oldest
    /// first.
    pub closed spec fn output_drains(&self) -> Seq<bool> {
        self.output.drain_answers()
    }

    /// How many times the branch's output was flushed.
    pub closed spec fn output_flushes(&self) -> nat {
        self.output.flush_count()
    }

    /// An empty branch in the `Feeding` phase; the queue capacity must be
    /// positive.
    pub fn new(
        decoder: D,
        output: O,
        track_id: TrackId,
        epoch: PlaybackEpoch,
        packet_capacity: usize,
    ) -> (r: Result<Self, AudioPipelineError>)
        ensures
            packet_capacity == 0 <==> r is Err,
            r matches Err(e) ==> e == AudioPipelineError::Queue(QueueError::InvalidCapacity),
            r matches Ok(p) ==> {
                &&& p.wf()
                &&& p.phase() == AudioPhase::Feeding
                &&& p.spec_epoch() == epoch
                &&& p.spec_track_id() == track_id
                &&& p.queued() == Seq::<Packet>::empty()
                &&& p.capacity() == packet_capacity
                &&& p.pending_input() is None
                &&& p.pending_frame() is None
            },
    {
        let packets = match BoundedQueue::new(packet_capacity) {
            Ok(queue) => queue,
            Err(e) => return Err(AudioPipelineError::Queue(e)),
        };
        Ok(
            AudioPipeline {
                decoder,
                output,
                track_id,
                epoch,
                packets,
                pending_input: None,
                pending_frame: None,
                phase: AudioPhase::Feeding,
            },
        )
    }

    /// Queues a packet of the current generation and of this track while
    /// packets are accepted. An item of another generation comes back
    /// untouched; a full queue hands the item back.
    pub fn try_push_packet(&mut self, item: EpochItem<Packet>) -> (r: Result<
        AudioEnqueueResult,
        AudioPipelineError,
    >)
        requires
            old(self).wf(),
        ensures
            final(self).wf(),
            final(self).handed() == old(self).handed(),
            final(self).delivered() == old(self).delivered(),
            final(self).output_started() == old(self).output_started(),
            final(self).phase() == old(self).phase(),
            final(self).spec_epoch() == old(self).spec_epoch(),
            final(self).spec_track_id() == old(self).spec_track_id(),
            final(self).capacity() == old(self).capacity(),
            final(self).pending_input() == old(self).pending_input(),
            final(self).pending_frame() == old(self).pending_frame(),
            if item.epoch() != old(self).spec_epoch() {
                r matches Ok(AudioEnqueueResult::EpochMismatch(i)) && i == item
                    && *final(self) == *old(self)
            } else if item.spec_value().track_id() != old(self).spec_track_id() {
                r matches Err(e) && e == AudioPipelineError::WrongTrack && final(self).queued()
                    == old(self).queued()
            } else if old(self).phase() != AudioPhase::Feeding {
                r matches Err(e) && e == AudioPipelineError::InputClosed && final(self).queued()
                    == old(self).queued()
            } else if old(self).queued().len() == old(self).capacity() {
                r matches Ok(AudioEnqueueResult::Backpressure(i)) && i.epoch() == item.epoch()
                    && i.spec_value() == item.spec_value() && final(self).queued() == old(self).queued()
            } else {
                r matches Ok(AudioEnqueueResult::Accepted) && final(self).queued() == old(self).queued().push(item.spec_value())
            },
    {
        proof {
            self.packets.lemma_within_capacity();
        }
        if item.epoch() != self.epoch {
            return Ok(AudioEnqueueResult::EpochMismatch(item));
        }
        if item.value().track_id() != self.track_id {
            return Err(AudioPipelineError::WrongTrack);
        }
        if self.phase != AudioPhase::Feeding {
            return Err(AudioPipelineError::InputClosed);
        }
        let (epoch, packet) = item.into_parts();
        match self.packets.push(packet) {
            QueuePushResult::Accepted => Ok(AudioEnqueueResult::Accepted),
            QueuePushResult::Full(packet) => Ok(
                AudioEnqueueResult::Backpressure(EpochItem::new(epoch, packet)),
            ),
        }
    }

    /// Marks the end of the input of generation `epoch`; `false`, with
    /// nothing changed, for another generation.
    pub fn end_input(&mut self, epoch: PlaybackEpoch) -> (r: bool)
        requires
            old(self).wf(),
        ensures
            final(self).wf(),
            final(self).handed() == old(self).handed(),
            final(self).delivered() == old(self).delivered(),
            final(self).output_started() == old(self).output_started(),
            r == (epoch == old(self).spec_epoch()),
            final(self).phase() == if r && old(self).phase() == AudioPhase::Feeding {
                AudioPhase::InputEnded
            } else {
                old(self).phase()
            },
            final(self).spec_epoch() == old(self).spec_epoch(),
            final(self).spec_track_id() == old(self).spec_track_id(),
            final(self).capacity() == old(self).capacity(),
            final(self).queued() == old(self).queued(),
            final(self).pending_input() == old(self).pending_input(),
            final(self).pending_frame() == old(self).pending_frame(),
    {
        if epoch != self.epoch {
            return false;
        }
        if self.phase == AudioPhase::Feeding {
            self.phase = AudioPhase::InputEnded;
        }
        true
    }

    /// Hands at most one input to the decoder: the input it pushed back
    /// before, else the oldest queued packet, else — once input ended — the
    /// end of the stream. Returns whether anything moved.
    pub fn submit_one_input(&mut self) -> (r: Result<bool, AudioPipelineError>)
        requires
            old(self).wf(),
        ensures
            final(self).wf(),
            final(self).spec_epoch() == old(self).spec_epoch(),
            final(self).spec_track_id() == old(self).spec_track_id(),
            final(self).capacity() == old(self).capacity(),
            final(self).pending_frame() == old(self).pending_frame(),
            r matches Err(e) ==> e is Decode,
            (old(self).phase() == AudioPhase::Draining || old(self).phase()
                == AudioPhase::DecoderDrained) ==> (r matches Ok(false) && final(self).queued()
                == old(self).queued() && final(self).phase() == old(self).phase()
                && final(self).pending_input() == old(self).pending_input()),
            old(self).pending_input() matches Some(input) ==> {
                &&& final(self).queued() == old(self).queued()
                &&& {
                    ||| (r matches Ok(true) && final(self).pending_input() is None
                        && final(self).phase() == (if input is EndOfStream {
                        AudioPhase::Draining
                    } else {
                        old(self).phase()
                    }) && final(self).handed() == old(self).handed().push(input))
                    ||| (r matches Ok(false) && final(self).pending_input()
                        == old(self).pending_input() && final(self).phase() == old(self).phase()
                        && final(self).handed() == old(self).handed())
                    ||| (r is Err && final(self).pending_input() is None && final(self).phase()
                        == old(self).phase() && final(self).handed() == old(self).handed())
                }
            },
            old(self).pending_input() is None && old(self).queued().len() > 0 && (old(self).phase()
                == AudioPhase::Feeding || old(self).phase() == AudioPhase::InputEnded) ==> {
                &&& final(self).queued() == old(self).queued().drop_first()
                &&& final(self).phase() == old(self).phase()
                &&& {
                    ||| (r matches Ok(true) && final(self).pending_input() is None
                        && final(self).handed() == old(self).handed().push(
                        DecodeInput::Packet(old(self).queued()[0]),
                    ))
                    ||| (r matches Ok(true) && final(self).pending_input() == Some(
                        DecodeInput::Packet(old(self).queued()[0]),
                    ) && final(self).handed() == old(self).handed())
                    ||| (r is Err && final(self).pending_input() is None && final(self).handed()
                        == old(self).handed())
                }
            },
            old(self).pending_input() is None && old(self).queued().len() == 0 && old(self).phase()
                == AudioPhase::InputEnded ==> {
                &&& final(self).queued() == old(self).queued()
                &&& {
                    ||| (r matches Ok(true) && final(self).pending_input() is None
                        && final(self).phase() == AudioPhase::Draining && final(self).handed()
                        == old(self).handed().push(DecodeInput::EndOfStream))
                    ||| (r matches Ok(true) && final(self).pending_input() == Some(
                        DecodeInput::EndOfStream,
                    ) && final(self).phase() == AudioPhase::InputEnded && final(self).handed()
                        == old(self).handed())
                    ||| (r is Err && final(self).pending_input() is None && final(self).phase()
                        == AudioPhase::InputEnded && final(self).handed() == old(self).handed())
                }
            },
            final(self).delivered() == old(self).delivered(),
            final(self).output_started() == old(self).output_started(),
            final(self).receipts() == old(self).receipts(),
            r matches Ok(false) ==> final(self).handed() == old(self).handed(),
            (old(self).phase() == AudioPhase::Feeding || old(self).phase() == AudioPhase::InputEnded)
                ==> final(self).offered() == match old(self).pending_input() {
                Some(input) => old(self).offered().push(input),
                None => if old(self).queued().len() > 0 {
                    old(self).offered().push(DecodeInput::Packet(old(self).queued()[0]))
                } else if old(self).phase() == AudioPhase::InputEnded {
                    old(self).offered().push(DecodeInput::EndOfStream)
                } else {
                    old(self).offered()
                },
            },
            r matches Ok(false) ==> (old(self).phase() == AudioPhase::Draining || old(self).phase()
                == AudioPhase::DecoderDrained || (old(self).pending_input() is None
                && old(self).queued().len() == 0 && old(self).phase() == AudioPhase::Feeding) || (
            old(self).pending_input() is Some && final(self).pending_input() == old(self).pending_input())),
            old(self).phase() == AudioPhase::Feeding && old(self).pending_input() is None
                && old(self).queued().len() == 0 ==> (r matches Ok(false)
                && final(self).pending_input() is None && final(self).queued() == old(self).queued()
                && final(self).phase() == old(self).phase()),
    {
        if self.phase == AudioPhase::Draining || self.phase == AudioPhase::DecoderDrained {
            return Ok(false);
        }
        let mut progressed = false;
        if self.pending_input.is_none() {
            self.pending_input = match self.packets.pop() {
                Some(packet) => Some(DecodeInput::Packet(packet)),
                None => if self.phase == AudioPhase::InputEnded {
                    Some(DecodeInput::EndOfStream)
                } else {
                    None
                },
            };
            progressed = self.pending_input.is_some();
        }
        let input = match self.pending_input.take() {
            Some(input) => input,
            None => return Ok(false),
        };
        let is_eos = match &input {
            DecodeInput::EndOfStream => true,
            DecodeInput::Packet(_) => false,
        };
        let submitted = match self.decoder.submit(input) {
            Ok(value) => value,
            Err(e) => return Err(AudioPipelineError::Decode(e)),
        };
        match submitted {
            SubmitResult::Accepted => {
                if is_eos {
                    self.phase = AudioPhase::Draining;
                }
                Ok(true)
            },
            SubmitResult::Backpressure(input) => {
                self.pending_input = Some(input);
                Ok(progressed)
            },
        }
    }

    /// Offers the frame that the output pushed back before; returns whether
    /// the output took it.
    fn submit_pending_frame(&mut self) -> (r: Result<bool, AudioPipelineError>)
        requires
            old(self).wf(),
        ensures
            final(self).wf(),
            final(self).phase() == old(self).phase(),
            final(self).spec_epoch() == old(self).spec_epoch(),
            final(self).spec_track_id() == old(self).spec_track_id(),
            final(self).capacity() == old(self).capacity(),
            final(self).queued() == old(self).queued(),
            final(self).pending_input() == old(self).pending_input(),
            old(self).pending_frame() is None ==> (r matches Ok(false) && final(self).pending_frame() is None),
            final(self).handed() == old(self).handed(),
            final(self).offered() == old(self).offered(),
            final(self).receipts() == old(self).receipts(),
            r matches Ok(true) ==> final(self).delivered() == old(self).delivered().push(
                old(self).pending_frame()->0,
            ),
            !(r matches Ok(true)) ==> final(self).delivered() == old(self).delivered(),
            old(self).pending_frame() is Some ==> {
                ||| (r matches Ok(true) && final(self).pending_frame() is None)
                ||| (r matches Ok(false) && final(self).pending_frame() == old(self).pending_frame())
                ||| (r is Err && final(self).pending_frame() is None)
            },
            r matches Err(e) ==> e is Output,
    {
        let frame = match self.pending_frame.take() {
            Some(frame) => frame,
            None => return Ok(false),
        };
        match self.output.submit(frame) {
            Ok(AudioSubmitResult::Accepted) => Ok(true),
            Ok(AudioSubmitResult::Backpressure(frame)) => {
                self.pending_frame = Some(frame);
                Ok(false)
            },
            Err(e) => Err(AudioPipelineError::Output(e)),
        }
    }

    /// Takes what the decoder gave out, while no frame waits for the output.
    /// A frame of the branch's track becomes the waiting frame; a frame of
    /// another track is refused with `WrongTrack`; the end of the stream
    /// while draining means the decoder has drained, and at any other time is
    /// refused with `UnexpectedDecoderEos`; nothing yet changes nothing.
    /// Returns whether anything moved; a refusal changes nothing.
    pub fn accept_received(&mut self, received: ReceiveResult<AudioBuffer>) -> (r: Result<
        bool,
        AudioPipelineError,
    >)
        requires
            old(self).wf(),
            old(self).pending_frame() is None,
        ensures
            final(self).wf(),
            match received {
                ReceiveResult::Frame(frame) => if frame.track_id() != old(self).spec_track_id() {
                    r matches Err(AudioPipelineError::WrongTrack) && *final(self) == *old(self)
                } else {
                    &&& r matches Ok(true)
                    &&& final(self).pending_frame() == Some(frame)
                    &&& final(self).phase() == old(self).phase()
                    &&& final(self).queued() == old(self).queued()
                    &&& final(self).pending_input() == old(self).pending_input()
                },
                ReceiveResult::NotReady => r matches Ok(false) && *final(self) == *old(self),
                ReceiveResult::EndOfStream => if old(self).phase() == AudioPhase::Draining {
                    &&& r matches Ok(true)
                    &&& final(self).phase() == AudioPhase::DecoderDrained
                    &&& final(self).pending_frame() is None
                    &&& final(self).queued() == old(self).queued()
                    &&& final(self).pending_input() == old(self).pending_input()
                } else {
                    r matches Err(AudioPipelineError::UnexpectedDecoderEos) && *final(self)
                        == *old(self)
                },
            },
            final(self).spec_epoch() == old(self).spec_epoch(),
            final(self).spec_track_id() == old(self).spec_track_id(),
            final(self).capacity() == old(self).capacity(),
            final(self).handed() == old(self).handed(),
            final(self).delivered() == old(self).delivered(),
            final(self).output_started() == old(self).output_started(),
            final(self).offered() == old(self).offered(),
            final(self).receipts() == old(self).receipts(),
    {
        match received {
            ReceiveResult::Frame(frame) => {
                if frame.track_id() != self.track_id {
                    return Err(AudioPipelineError::WrongTrack);
                }
                self.pending_frame = Some(frame);
                Ok(true)
            },
            ReceiveResult::NotReady => Ok(false),
            ReceiveResult::EndOfStream => {
                if self.phase != AudioPhase::Draining {
                    return Err(AudioPipelineError::UnexpectedDecoderEos);
                }
                self.phase = AudioPhase::DecoderDrained;
                Ok(true)
            },
        }
    }

    /// What taking the decoder's answer did in a step from `before` to
    /// `after` with result `r`: the answer is recorded; a frame of another
    /// track fails with `WrongTrack`; a frame of the branch's track went to
    /// the output or waits for it (unless the step failed later); the end
    /// of the stream drains a draining branch and is an error otherwise.
    pub open spec fn receive_handled(
        before: Self,
        after: Self,
        r: Result<AudioStepResult, AudioPipelineError>,
    ) -> bool {
        &&& after.receipts().len() == before.receipts().len() + 1
        &&& after.receipts().drop_last() == before.receipts()
        &&& match after.receipts().last() {
            ReceiveResult::Frame(f) => if f.track_id() != before.spec_track_id() {
                r == Err::<AudioStepResult, AudioPipelineError>(AudioPipelineError::WrongTrack)
            } else {
                r is Err || after.delivered() == before.delivered().push(f) || (after.pending_frame()
                    == Some(f) && after.delivered() == before.delivered())
            },
            ReceiveResult::NotReady => true,
            ReceiveResult::EndOfStream => if before.phase() == AudioPhase::Draining {
                r == Ok::<AudioStepResult, AudioPipelineError>(AudioStepResult::DecoderDrained)
                    && after.phase() == AudioPhase::DecoderDrained
            } else {
                r == Err::<AudioStepResult, AudioPipelineError>(
                    AudioPipelineError::UnexpectedDecoderEos,
                )
            },
        }
    }

    /// What one step does, from `before` to `after` with result `r`; see
    /// `step`.
    pub open spec fn step_relation(
        before: Self,
        after: Self,
        r: Result<AudioStepResult, AudioPipelineError>,
    ) -> bool {
        &&& (after.spec_epoch() == before.spec_epoch())
        &&& (after.spec_track_id() == before.spec_track_id())
        &&& (after.capacity() == before.capacity())
        &&& (before.phase() == AudioPhase::Feeding ==> after.phase()
            == AudioPhase::Feeding)
        &&& (before.phase() == AudioPhase::InputEnded ==> (after.phase()
            == AudioPhase::InputEnded || after.phase() == AudioPhase::Draining))
        &&& (before.phase() == AudioPhase::Draining ==> (after.phase()
            == AudioPhase::Draining || after.phase() == AudioPhase::DecoderDrained))
        &&& (before.phase() == AudioPhase::DecoderDrained ==> after.phase()
            == AudioPhase::DecoderDrained)
        &&& (r matches Ok(AudioStepResult::DecoderDrained) ==> after.phase()
            == AudioPhase::DecoderDrained && after.pending_frame() is None)
        &&& (r matches Err(AudioPipelineError::UnexpectedDecoderEos) ==> before.phase()
            != AudioPhase::Draining)
        &&& (after.queued() == before.queued() || (before.queued().len() > 0
            && after.queued() == before.queued().drop_first()))
        &&& (before.phase() == AudioPhase::DecoderDrained && before.pending_frame() is None
            ==> (r matches Ok(AudioStepResult::DecoderDrained) && after.queued()
            == before.queued() && after.pending_input() == before.pending_input()
            && after.pending_frame() is None))
        &&& (r is Ok && after.phase() == AudioPhase::DecoderDrained
            && after.pending_frame() is None ==> r matches Ok(
            AudioStepResult::DecoderDrained,
        ))
        &&& (r matches Ok(AudioStepResult::Blocked) ==> after.queued() == before.queued()
            && after.pending_input() == before.pending_input()
            && after.pending_frame() == before.pending_frame() && after.phase()
            == before.phase() && after.handed() == before.handed()
            && after.delivered() == before.delivered())
        &&& (before.pending_frame() matches Some(f) ==> (r is Err || (r matches Ok(
            AudioStepResult::Blocked,
        ) && after.pending_frame() == before.pending_frame()) || before.delivered().push(f).is_prefix_of(after.delivered())))
        &&& (before.delivered().is_prefix_of(after.delivered()))
        &&& (r matches Err(e) ==> (e is Decode || e is Output || e is WrongTrack
            || e is UnexpectedDecoderEos))
        &&& (r matches Err(AudioPipelineError::WrongTrack) ==> before.phase()
            != AudioPhase::DecoderDrained)
        &&& (before.pending_frame() is None && before.pending_input() is None && before.queued().len() > 0 && (before.phase() == AudioPhase::Feeding || before.phase()
            == AudioPhase::InputEnded) ==> (r is Err || (r matches Ok(AudioStepResult::Progress)
            && (after.queued() == before.queued().drop_first() || after.pending_frame() is Some))))
        &&& (before.pending_frame() is None && before.phase() != AudioPhase::DecoderDrained ==> ((
        r matches Err(AudioPipelineError::Decode(_)) && after.receipts() == before.receipts())
            || Self::receive_handled(before, after, r)))
    }

    /// Moves the branch forward by at most one output submission, one
    /// decoder output and one decoder input, in that order of priority.
    ///
    /// The phase only moves forward, from `InputEnded` to `Draining` (when
    /// the end of the stream is handed over) and from `Draining` to
    /// `DecoderDrained` (when the decoder reports the end); the decoder may
    /// report the end only while draining. `DecoderDrained` is returned
    /// exactly when the decoder has drained and no frame is left.
    pub fn step(&mut self) -> (r: Result<AudioStepResult, AudioPipelineError>)
        requires
            old(self).wf(),
        ensures
            final(self).wf(),
            Self::step_relation(*old(self), *final(self), r),
    {
        let mut progressed = false;

        if self.pending_frame.is_some() {
            if !self.submit_pending_frame()? {
                return Ok(AudioStepResult::Blocked);
            }
            progressed = true;
        }
        if self.phase != AudioPhase::DecoderDrained {
            let ghost asked = self.receipts();
            let received = match self.decoder.receive() {
                Ok(value) => value,
                Err(e) => return Err(AudioPipelineError::Decode(e)),
            };
            proof {
                assert(self.receipts().drop_last() =~= asked);
                assert(self.receipts().last() == received);
            }
            if self.accept_received(received)? {
                progressed = true;
            }
        }
        if self.pending_frame.is_some() {
            if !self.submit_pending_frame()? {
                return Ok(
                    if progressed {
                        AudioStepResult::Progress
                    } else {
                        AudioStepResult::Blocked
                    },
                );
            }
            progressed = true;
        }
        if self.phase == AudioPhase::DecoderDrained {
            return Ok(AudioStepResult::DecoderDrained);
        }
        let moved = self.submit_one_input()?;
        progressed = progressed || moved;
        Ok(
            if progressed {
                AudioStepResult::Progress
            } else {
                AudioStepResult::Blocked
            },
        )
    }

    pub fn start(&mut self) -> (r: Result<(), AudioPipelineError>)
        requires
            old(self).wf(),
        ensures
            final(self).wf(),
            final(self).same_branch(*old(self)),
            r matches Err(e) ==> e is Output,
            r is Ok ==> final(self).output_started(),
            final(self).handed() == old(self).handed(),
            final(self).delivered() == old(self).delivered(),
    {
        match self.output.start() {
            Ok(()) => Ok(()),
            Err(e) => Err(AudioPipelineError::Output(e)),
        }
    }

    pub fn pause(&mut self) -> (r: Result<(), AudioPipelineError>)
        requires
            old(self).wf(),
        ensures
            final(self).wf(),
            final(self).same_branch(*old(self)),
            r matches Err(e) ==> e is Output,
            r is Ok ==> !final(self).output_started(),
            final(self).output_drains() == old(self).output_drains(),
            final(self).handed() == old(self).handed(),
            final(self).delivered() == old(self).delivered(),
    {
        match self.output.pause() {
            Ok(()) => Ok(()),
            Err(e) => Err(AudioPipelineError::Output(e)),
        }
    }

    /// Whether the two branches have the same generation, track, phase,
    /// queue and waiting input and frame.
    pub open spec fn same_branch(&self, other: Self) -> bool {
        &&& self.phase() == other.phase()
        &&& self.spec_epoch() == other.spec_epoch()
        &&& self.spec_track_id() == other.spec_track_id()
        &&& self.capacity() == other.capacity()
        &&& self.queued() == other.queued()
        &&& self.pending_input() == other.pending_input()
        &&& self.pending_frame() == other.pending_frame()
    }

    /// Starts generation `new_epoch` from scratch: pauses the output, drops
    /// every queued packet and waiting input and frame, flushes the decoder
    /// and the output, and accepts packets again. On success nothing of the
    /// previous generation is left; on failure the generation is unchanged.
    pub fn reset(&mut self, new_epoch: PlaybackEpoch) -> (r: Result<(), AudioPipelineError>)
        requires
            old(self).wf(),
        ensures
            final(self).wf(),
            final(self).spec_track_id() == old(self).spec_track_id(),
            final(self).capacity() == old(self).capacity(),
            r is Ok ==> {
                &&& final(self).spec_epoch() == new_epoch
                &&& !final(self).output_started()
                &&& final(self).decoder_flushes() == old(self).decoder_flushes() + 1
                &&& final(self).output_flushes() == old(self).output_flushes() + 1
                &&& final(self).handed() == old(self).handed()
                &&& final(self).delivered() == old(self).delivered()
                &&& final(self).positions() == old(self).positions()
                &&& final(self).phase() == AudioPhase::Feeding
                &&& final(self).queued() == Seq::<Packet>::empty()
                &&& final(self).pending_input() is None
                &&& final(self).pending_frame() is None
            },
            r is Err ==> final(self).spec_epoch() == old(self).spec_epoch(),
    {
        match self.output.pause() {
            Ok(()) => {},
            Err(e) => return Err(AudioPipelineError::Output(e)),
        }
        self.pending_frame = None;
        self.pending_input = None;
        let _dropped = self.packets.drain();
        match self.decoder.flush() {
            Ok(()) => {},
            Err(e) => return Err(AudioPipelineError::Decode(e)),
        }
        match self.output.flush() {
            Ok(()) => {},
            Err(e) => return Err(AudioPipelineError::Output(e)),
        }
        self.epoch = new_epoch;
        self.phase = AudioPhase::Feeding;
        Ok(())
    }

    #[verifier::when_used_as_spec(spec_epoch)]
    pub fn epoch(&self) -> (r: PlaybackEpoch)
        ensures
            r == self.spec_epoch(),
    {
        self.epoch
    }

    /// Whether everything of this generation was played: the decoder has
    /// drained, no frame waits, and the output played everything it took.
    pub fn is_finished(&mut self) -> (r: Result<bool, AudioPipelineError>)
        requires
            old(self).wf(),
        ensures
            final(self).wf(),
            final(self).same_branch(*old(self)),
            r matches Err(e) ==> e is Output,
            !(old(self).phase() == AudioPhase::DecoderDrained && old(self).pending_frame() is None)
                ==> r matches Ok(false),
            r matches Ok(true) ==> old(self).phase() == AudioPhase::DecoderDrained && old(self).pending_frame() is None,
            match r {
                Ok(finished) => if old(self).phase() == AudioPhase::DecoderDrained
                    && old(self).pending_frame() is None {
                    final(self).output_drains() == old(self).output_drains().push(finished)
                } else {
                    final(self).output_drains() == old(self).output_drains()
                },
                Err(_) => final(self).output_drains() == old(self).output_drains(),
            },
    {
        if self.phase != AudioPhase::DecoderDrained || self.pending_frame.is_some() {
            return Ok(false);
        }
        match self.output.is_drained() {
            Ok(drained) => Ok(drained),
            Err(e) => Err(AudioPipelineError::Output(e)),
        }
    }

    pub fn playback_position(&mut self) -> (r: Result<AudioPlaybackPosition, AudioPipelineError>)
        requires
            old(self).wf(),
        ensures
            final(self).wf(),
            final(self).decoder_flushes() == old(self).decoder_flushes(),
            final(self).output_flushes() == old(self).output_flushes(),
            match r {
                Ok(p) => final(self).positions() == old(self).positions().push(p),
                Err(_) => final(self).positions() == old(self).positions(),
            },
            final(self).same_branch(*old(self)),
            r matches Err(e) ==> e is Output,
    {
        match self.output.playback_position() {
            Ok(position) => Ok(position),
            Err(e) => Err(AudioPipelineError::Output(e)),
        }
    }
}

} // verus!
