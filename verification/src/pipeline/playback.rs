//! The playback pipeline: a demuxer feeding the audio branch of one track,
//! with seeks that start a new generation.
use crate::media::format::TrackFormat;
use crate::media::frame::AudioBuffer;
use crate::media::packet::Packet;
use crate::media::time::MediaTime;
use crate::media::track::{TrackId, TrackInfo};
use crate::pipeline::audio::{
    AudioEnqueueResult, AudioPhase, AudioPipeline, AudioPipelineError, AudioStepResult,
};
use crate::pipeline::epoch::{EpochItem, PlaybackEpoch};
use crate::ports::audio_output::AudioOutput;
use crate::ports::decoder::Decoder;
use crate::ports::demuxer::{DemuxError, Demuxer, ReadPacketResult};
use crate::timing::clock::{AudioClock, ClockError, ClockSnapshot};
use vstd::prelude::*;

verus! {

/// Whether the demuxer still has packets to give.
#[derive(Debug, Clone, Copy, PartialEq, Eq, Structural)]
pub enum SourcePhase {
    Reading,
    Ended,
}

/// The result of a step whose audio branch made progress when
/// `audio_progressed`, and whose source move gave `moved`: progress when
/// either moved, blocked when neither did, and the source's error.
pub open spec fn step_outcome(
    audio_progressed: bool,
    moved: Result<bool, PlaybackPipelineError>,
) -> Result<PlaybackStepResult, PlaybackPipelineError> {
    match moved {
        Ok(source_moved) => Ok(
            if audio_progressed || source_moved {
                PlaybackStepResult::Progress
            } else {
                PlaybackStepResult::Blocked
            },
        ),
        Err(e) => Err(e),
    }
}

/// What a step did.
#[derive(Debug, Clone, Copy, PartialEq, Eq, Structural)]
pub enum PlaybackStepResult {
    Progress,
    Blocked,
    DecoderDrained,
}

#[derive(Debug)]
pub enum PlaybackPipelineError {
    Demux(DemuxError),
    Audio(AudioPipelineError),
    TrackNotFound,
    NotAudioTrack,
    NoAudioTrack,
    EpochMismatch { expected: PlaybackEpoch, actual: PlaybackEpoch },
    InvalidSeekEpoch { current: PlaybackEpoch, requested: PlaybackEpoch },
    Clock(ClockError),
}

/// Where a seek was asked to go, where it landed, and the generation it
/// started.
#[derive(Debug, Clone, Copy)]
pub struct SeekOutcome {
    pub requesteed: MediaTime,
    pub landed: MediaTime,
    pub epoch: PlaybackEpoch,
}

/// The index of the first track with id `id`, if any.
pub open spec fn first_track_with_id(tracks: Seq<TrackInfo>, id: TrackId) -> Option<int> {
    if exists|i: int| 0 <= i < tracks.len() && (#[trigger] tracks[i]).id() == id {
        Some(
            choose|i: int|
                0 <= i < tracks.len() && (#[trigger] tracks[i]).id() == id && forall|j: int|
                    0 <= j < i ==> (#[trigger] tracks[j]).id() != id,
        )
    } else {
        None
    }
}

/// Checks that `tracks` holds a track `id` and that the first such track is
/// an audio track; returns its sample rate.
pub fn check_audio_track(tracks: &[TrackInfo], id: TrackId) -> (r: Result<
    u32,
    PlaybackPipelineError,
>)
    ensures
        (forall|i: int| 0 <= i < tracks@.len() ==> (#[trigger] tracks@[i]).id() != id) ==> (r matches Err(
            e,
        ) && e is TrackNotFound),
        (exists|i: int| 0 <= i < tracks@.len() && (#[trigger] tracks@[i]).id() == id) ==> ({
            let k = choose|i: int|
                0 <= i < tracks@.len() && (#[trigger] tracks@[i]).id() == id && forall|j: int|
                    0 <= j < i ==> (#[trigger] tracks@[j]).id() != id;
            &&& 0 <= k < tracks@.len()
            &&& tracks@[k].id() == id
            &&& (tracks@[k].spec_format() is Audio <==> r is Ok)
            &&& r matches Ok(rate) ==> tracks@[k].spec_format() matches TrackFormat::Audio(f)
                && f.sample_rate() == rate
            &&& r matches Err(e) ==> e is NotAudioTrack
        }),
{
    let mut i: usize = 0;
    while i < tracks.len()
        invariant
            i <= tracks@.len(),
            forall|j: int| 0 <= j < i ==> (#[trigger] tracks@[j]).id() != id,
        decreases tracks@.len() - i,
    {
        if tracks[i].id() == id {
            proof {
                let k = choose|x: int|
                    0 <= x < tracks@.len() && (#[trigger] tracks@[x]).id() == id && forall|j: int|
                        0 <= j < x ==> (#[trigger] tracks@[j]).id() != id;
                assert(0 <= i < tracks@.len() && tracks@[i as int].id() == id && forall|j: int|
                    0 <= j < i ==> (#[trigger] tracks@[j]).id() != id);
                if k < i {
                } else if k > i {
                    assert(tracks@[i as int].id() != id);
                }
                assert(k == i);
            }
            return match tracks[i].format() {
                TrackFormat::Audio(format) => Ok(format.sample_rate()),
                TrackFormat::Video(_) => Err(PlaybackPipelineError::NotAudioTrack),
            };
        }
        i = i + 1;
    }
    Err(PlaybackPipelineError::TrackNotFound)
}

/// A demuxer feeding the audio branch of one of its tracks.
pub struct PlaybackPipeline<X, D, O> {
    demuxer: X,
    audio: AudioPipeline<D, O>,
    audio_track: TrackId,
    epoch: PlaybackEpoch,
    pending_packet: Option<EpochItem<Packet>>,
    source_phase: SourcePhase,
    clock: AudioClock,
}

impl<X, D, O> PlaybackPipeline<X, D, O> where
    X: Demuxer,
    D: Decoder<Output = AudioBuffer>,
    O: AudioOutput,
 {
    /// The audio branch is well formed and serves the pipeline's track; the
    /// packet waiting for the branch is of that track and of the current
    /// generation.
    pub closed spec fn wf(&self) -> bool {
        &&& self.audio.wf()
        &&& self.audio.spec_track_id() == self.audio_track
        &&& self.pending_packet matches Some(item) ==> item.epoch() == self.epoch
            && item.spec_value().track_id() == self.audio_track
    }

    pub closed spec fn spec_epoch(&self) -> PlaybackEpoch {
        self.epoch
    }

    pub closed spec fn audio_track(&self) -> TrackId {
        self.audio_track
    }

    pub closed spec fn source_phase(&self) -> SourcePhase {
        self.source_phase
    }

    /// The audio branch.
    pub closed spec fn branch(&self) -> AudioPipeline<D, O> {
        self.audio
    }

    /// The audio clock of the current generation.
    pub closed spec fn audio_clock(&self) -> AudioClock {
        self.clock
    }

    /// The tracks of the demuxer.
    pub closed spec fn source_tracks(&self) -> Seq<TrackInfo> {
        self.demuxer.spec_tracks()
    }

    /// Where the demuxer's successful seeks landed, oldest first.
    pub closed spec fn demuxer_landings(&self) -> Seq<MediaTime> {
        self.demuxer.landings()
    }

    /// The answers the demuxer gave to reads, oldest first.
    pub closed spec fn demuxer_reads(&self) -> Seq<ReadPacketResult> {
        self.demuxer.reads()
    }

    /// The targets of the seeks asked of the demuxer, oldest first.
    pub closed spec fn demuxer_seeks(&self) -> Seq<MediaTime> {
        self.demuxer.seek_targets()
    }

    /// The packet read from the demuxer that the branch has not taken yet.
    pub closed spec fn pending_packet(&self) -> Option<EpochItem<Packet>> {
        self.pending_packet
    }

    /// A pipeline playing track `audio_track` of `demuxer` in generation
    /// `epoch`. The first track with that id must exist and be an audio
    /// track (see `check_audio_track`), and the queue capacity must be
    /// positive.
    pub fn new(
        demuxer: X,
        decoder: D,
        output: O,
        audio_track: TrackId,
        epoch: PlaybackEpoch,
        packet_capacity: usize,
    ) -> (r: Result<Self, PlaybackPipelineError>)
        ensures
            r matches Ok(p) ==> {
                &&& p.wf()
                &&& p.spec_epoch() == epoch
                &&& p.audio_track() == audio_track
                &&& p.source_phase() == SourcePhase::Reading
                &&& p.pending_packet() is None
                &&& p.branch().spec_epoch() == epoch
                &&& p.branch().phase() == AudioPhase::Feeding
                &&& p.branch().queued() == Seq::<Packet>::empty()
                &&& p.branch().capacity() == packet_capacity
                &&& p.audio_clock().anchor_media().nanoseconds() == 0
                &&& p.audio_clock().anchor_played_frames() == 0
                &&& p.source_tracks() == demuxer.spec_tracks()
            },
            r matches Err(e) ==> (e is TrackNotFound || e is NotAudioTrack || e
                == PlaybackPipelineError::Audio(
                AudioPipelineError::Queue(crate::pipeline::queue::QueueError::InvalidCapacity),
            ) || e == PlaybackPipelineError::Clock(ClockError::InvalidSampleRate)),
            r matches Err(PlaybackPipelineError::Audio(_)) ==> packet_capacity == 0,
            match first_track_with_id(demuxer.spec_tracks(), audio_track) {
                None => r matches Err(e) && e is TrackNotFound,
                Some(k) => match demuxer.spec_tracks()[k].spec_format() {
                    TrackFormat::Audio(f) => if f.sample_rate() == 0 {
                        r matches Err(e) && e == PlaybackPipelineError::Clock(
                            ClockError::InvalidSampleRate,
                        )
                    } else if packet_capacity == 0 {
                        r matches Err(e) && e == PlaybackPipelineError::Audio(
                            AudioPipelineError::Queue(
                                crate::pipeline::queue::QueueError::InvalidCapacity,
                            ),
                        )
                    } else {
                        r is Ok
                    },
                    _ => r matches Err(e) && e is NotAudioTrack,
                },
            },
    {
        let sample_rate = check_audio_track(demuxer.tracks(), audio_track)?;
        let clock = match AudioClock::new(sample_rate, MediaTime::from_nanoseconds(0), 0) {
            Ok(clock) => clock,
            Err(e) => return Err(PlaybackPipelineError::Clock(e)),
        };
        let audio = match AudioPipeline::new(decoder, output, audio_track, epoch, packet_capacity) {
            Ok(audio) => audio,
            Err(e) => return Err(PlaybackPipelineError::Audio(e)),
        };
        Ok(
            PlaybackPipeline {
                demuxer,
                audio,
                audio_track,
                epoch,
                pending_packet: None,
                source_phase: SourcePhase::Reading,
                clock,
            },
        )
    }

    /// What offering the waiting packet does: with no packet, nothing. A
    /// packet of another generation than the branch's is dropped with
    /// `EpochMismatch`; one that the branch no longer takes is dropped with
    /// the branch's `InputClosed`; one that does not fit stays waiting; any
    /// other is queued behind the branch's packets.
    pub open spec fn dispatch_outcome(
        before: Self,
        after: Self,
        r: Result<bool, PlaybackPipelineError>,
    ) -> bool {
        &&& after.branch().pending_input() == before.branch().pending_input()
        &&& after.branch().pending_frame() == before.branch().pending_frame()
        &&& after.branch().capacity() == before.branch().capacity()
        &&& match before.pending_packet() {
            None => r matches Ok(false) && after.branch().queued() == before.branch().queued()
                && after.pending_packet() is None,
            Some(item) => if item.epoch() != before.branch().spec_epoch() {
                &&& r matches Err(PlaybackPipelineError::EpochMismatch { expected, actual })
                &&& expected == before.spec_epoch() && actual == item.epoch()
                &&& after.pending_packet() is None
                &&& after.branch().queued() == before.branch().queued()
            } else if before.branch().phase() != AudioPhase::Feeding {
                &&& r matches Err(PlaybackPipelineError::Audio(AudioPipelineError::InputClosed))
                &&& after.pending_packet() is None
                &&& after.branch().queued() == before.branch().queued()
            } else if before.branch().queued().len() == before.branch().capacity() {
                &&& r matches Ok(false)
                &&& after.pending_packet() matches Some(i) && i.epoch() == item.epoch()
                    && i.spec_value() == item.spec_value()
                &&& after.branch().queued() == before.branch().queued()
            } else {
                &&& r matches Ok(true)
                &&& after.pending_packet() is None
                &&& after.branch().queued() == before.branch().queued().push(item.spec_value())
            },
        }
    }

    /// Offers the waiting packet to the audio branch; returns whether it was
    /// taken.
    fn dispatch_pending_packet(&mut self) -> (r: Result<bool, PlaybackPipelineError>)
        requires
            old(self).wf(),
        ensures
            final(self).wf(),
            final(self).spec_epoch() == old(self).spec_epoch(),
            final(self).audio_track() == old(self).audio_track(),
            final(self).source_phase() == old(self).source_phase(),
            final(self).branch().phase() == old(self).branch().phase(),
            final(self).branch().spec_epoch() == old(self).branch().spec_epoch(),
            Self::dispatch_outcome(*old(self), *final(self), r),
            final(self).demuxer_reads() == old(self).demuxer_reads(),
            final(self).branch().pending_input() == old(self).branch().pending_input(),
            final(self).branch().pending_frame() == old(self).branch().pending_frame(),
            final(self).branch().handed() == old(self).branch().handed(),
            final(self).branch().delivered() == old(self).branch().delivered(),
    {
        let item = match self.pending_packet.take() {
            Some(item) => item,
            None => return Ok(false),
        };
        let pushed = match self.audio.try_push_packet(item) {
            Ok(value) => value,
            Err(e) => return Err(PlaybackPipelineError::Audio(e)),
        };
        match pushed {
            AudioEnqueueResult::Accepted => Ok(true),
            AudioEnqueueResult::Backpressure(item) => {
                self.pending_packet = Some(item);
                Ok(false)
            },
            AudioEnqueueResult::EpochMismatch(item) => Err(
                PlaybackPipelineError::EpochMismatch { expected: self.epoch, actual: item.epoch() },
            ),
        }
    }

    /// `a` and `b` differ at most in where their demuxer stands.
    pub open spec fn same_but_demuxer(a: Self, b: Self) -> bool {
        &&& a.spec_epoch() == b.spec_epoch()
        &&& a.audio_track() == b.audio_track()
        &&& a.source_phase() == b.source_phase()
        &&& a.branch() == b.branch()
        &&& a.audio_clock() == b.audio_clock()
        &&& a.pending_packet() == b.pending_packet()
    }

    /// What one move of the source does, from `before` to `after` with
    /// result `r`: the waiting packet, if any, is offered to the branch (see
    /// `dispatch_outcome`); an ended source with nothing waiting does
    /// nothing; a source that reads asks the demuxer once and takes its
    /// answer as `read_outcome` says, or fails with the demuxer's error with
    /// nothing but the demuxer changed. The source ends only after the
    /// branch's input was ended. Nothing moved leaves the branch and the
    /// source as they were.
    pub open spec fn source_step(before: Self, after: Self, r: Result<bool, PlaybackPipelineError>) -> bool {
        &&& (after.spec_epoch() == before.spec_epoch())
        &&& (after.audio_track() == before.audio_track())
        &&& (after.branch().spec_epoch() == before.branch().spec_epoch())
        &&& (before.source_phase() == SourcePhase::Ended ==> after.source_phase()
            == SourcePhase::Ended)
        &&& (after.source_phase() == SourcePhase::Ended && before.source_phase()
            == SourcePhase::Reading ==> after.branch().phase() != AudioPhase::Feeding)
        &&& (before.pending_packet() is Some ==> Self::dispatch_outcome(before, after, r)
            && after.source_phase() == before.source_phase())
        &&& (before.pending_packet() is None && before.source_phase() == SourcePhase::Ended
            ==> (r matches Ok(false) && after.branch().same_branch(before.branch())
            && after.pending_packet() is None))
        &&& (before.pending_packet() is Some || before.source_phase() == SourcePhase::Ended
            ==> after.demuxer_reads() == before.demuxer_reads())
        &&& (before.pending_packet() is None && before.source_phase() == SourcePhase::Reading
            ==> ((r matches Err(PlaybackPipelineError::Demux(_)) && Self::same_but_demuxer(
            before,
            after,
        ) && after.demuxer_reads() == before.demuxer_reads()) || (after.demuxer_reads().len()
            == before.demuxer_reads().len() + 1 && after.demuxer_reads().drop_last()
            == before.demuxer_reads() && exists|mid: Self|
            Self::same_but_demuxer(before, mid) && #[trigger] Self::read_outcome(
                mid,
                after,
                after.demuxer_reads().last(),
                r,
            ))))
        &&& (r matches Err(e) ==> e is Demux || e is Audio || e is EpochMismatch)
        &&& (r matches Ok(false) ==> after.branch().queued() == before.branch().queued()
            && after.branch().phase() == before.branch().phase()
            && after.branch().pending_input() == before.branch().pending_input()
            && after.branch().pending_frame() == before.branch().pending_frame()
            && after.branch().handed() == before.branch().handed()
            && after.branch().delivered() == before.branch().delivered()
            && after.source_phase() == before.source_phase()
            && (before.pending_packet() is None ==> after.pending_packet() is None)
            && (before.pending_packet() matches Some(i) ==> after.pending_packet() matches Some(j)
            && j.epoch() == i.epoch() && j.spec_value() == i.spec_value()))
    }

    /// Moves the source by at most one read: first the waiting packet, then
    /// a new read unless the demuxer ended. Packets of other tracks are
    /// dropped; the end of the demuxer ends the input of the audio branch.
    fn step_source(&mut self) -> (r: Result<bool, PlaybackPipelineError>)
        requires
            old(self).wf(),
        ensures
            final(self).wf(),
            Self::source_step(*old(self), *final(self), r),
    {
        if self.pending_packet.is_some() {
            return self.dispatch_pending_packet();
        }
        if self.source_phase == SourcePhase::Ended {
            return Ok(false);
        }
        let ghost start = *self;
        let ghost asked = self.demuxer_reads();
        let read = match self.demuxer.read_packet() {
            Ok(value) => value,
            Err(e) => {
                proof {
                    assert(Self::same_but_demuxer(start, *self));
                }
                return Err(PlaybackPipelineError::Demux(e));
            },
        };
        let ghost before = *self;
        let ghost answer = read;
        let r = self.accept_read(read);
        proof {
            assert(Self::same_but_demuxer(start, before));
            assert(Self::read_outcome(before, *self, answer, r));
            assert(self.demuxer_reads().drop_last() =~= asked);
            assert(self.demuxer_reads().last() == answer);
            assert(Self::read_outcome(before, *self, self.demuxer_reads().last(), r));
        }
        r
    }

    /// What taking the demuxer's answer `read` does, from `before` to
    /// `after` with result `r`; see `accept_read`.
    pub open spec fn read_outcome(
        before: Self,
        after: Self,
        read: ReadPacketResult,
        r: Result<bool, PlaybackPipelineError>,
    ) -> bool {
        &&& (after.spec_epoch() == before.spec_epoch())
        &&& (after.audio_track() == before.audio_track())
        &&& (after.branch().spec_epoch() == before.branch().spec_epoch())
        &&& (after.branch().pending_input() == before.branch().pending_input())
        &&& (after.branch().pending_frame() == before.branch().pending_frame())
        &&& (after.branch().handed() == before.branch().handed())
        &&& (after.branch().delivered() == before.branch().delivered())
        &&& (after.demuxer_reads() == before.demuxer_reads())
        &&& match read {
            ReadPacketResult::Packet(packet) => if packet.track_id() != before.audio_track() {
                r matches Ok(true) && after == before
            } else if before.spec_epoch() != before.branch().spec_epoch() {
                &&& r matches Err(PlaybackPipelineError::EpochMismatch { expected, actual })
                &&& expected == before.spec_epoch() && actual == before.spec_epoch()
                &&& after.pending_packet() is None
                &&& after.branch().queued() == before.branch().queued()
                &&& after.source_phase() == SourcePhase::Reading
            } else if before.branch().phase() != AudioPhase::Feeding {
                &&& r matches Err(PlaybackPipelineError::Audio(AudioPipelineError::InputClosed))
                &&& after.pending_packet() is None
                &&& after.branch().queued() == before.branch().queued()
                &&& after.source_phase() == SourcePhase::Reading
            } else if before.branch().queued().len() == before.branch().capacity() {
                &&& r matches Ok(true)
                &&& after.pending_packet() matches Some(i) && i.epoch()
                    == before.spec_epoch() && i.spec_value() == packet
                &&& after.branch().queued() == before.branch().queued()
                &&& after.source_phase() == SourcePhase::Reading
            } else {
                &&& r matches Ok(true)
                &&& after.pending_packet() is None
                &&& after.branch().queued() == before.branch().queued().push(packet)
                &&& after.source_phase() == SourcePhase::Reading
            },
            ReadPacketResult::NotReady => r matches Ok(false) && after == before,
            ReadPacketResult::EndOfStream => if before.spec_epoch() != before.branch().spec_epoch() {
                &&& r matches Err(PlaybackPipelineError::EpochMismatch { expected, actual })
                &&& expected == before.spec_epoch() && actual == before.branch().spec_epoch()
                &&& after.branch().same_branch(before.branch())
                &&& after.source_phase() == SourcePhase::Reading
            } else {
                &&& r matches Ok(true)
                &&& after.source_phase() == SourcePhase::Ended
                &&& after.pending_packet() is None
                &&& after.branch().queued() == before.branch().queued()
                &&& after.branch().phase() == (if before.branch().phase()
                    == AudioPhase::Feeding {
                    AudioPhase::InputEnded
                } else {
                    before.branch().phase()
                })
            },
        }
    }

    /// Takes what the demuxer read, while no packet waits and the source is
    /// still reading. A packet of another track is skipped; a packet of the
    /// pipeline's track is tagged with the current generation and offered to
    /// the audio branch (see `dispatch_outcome`): it is queued, or waits when
    /// the branch is full; nothing read yet changes nothing; the end of the
    /// stream ends the branch's input and the source. Returns whether
    /// anything moved.
    pub fn accept_read(&mut self, read: ReadPacketResult) -> (r: Result<
        bool,
        PlaybackPipelineError,
    >)
        requires
            old(self).wf(),
            old(self).pending_packet() is None,
            old(self).source_phase() == SourcePhase::Reading,
        ensures
            final(self).wf(),
            Self::read_outcome(*old(self), *final(self), read, r),
    {
        match read {
            ReadPacketResult::Packet(packet) => {
                if packet.track_id() != self.audio_track {
                    return Ok(true);
                }
                self.pending_packet = Some(EpochItem::new(self.epoch, packet));
                self.dispatch_pending_packet()?;
                Ok(true)
            },
            ReadPacketResult::NotReady => Ok(false),
            ReadPacketResult::EndOfStream => {
                if !self.audio.end_input(self.epoch) {
                    return Err(
                        PlaybackPipelineError::EpochMismatch {
                            expected: self.epoch,
                            actual: self.audio.epoch(),
                        },
                    );
                }
                self.source_phase = SourcePhase::Ended;
                Ok(true)
            },
        }
    }

    /// `a` and `b` differ at most in their audio branch.
    pub open spec fn same_but_branch(a: Self, b: Self) -> bool {
        &&& a.spec_epoch() == b.spec_epoch()
        &&& a.audio_track() == b.audio_track()
        &&& a.source_phase() == b.source_phase()
        &&& a.audio_clock() == b.audio_clock()
        &&& a.pending_packet() == b.pending_packet()
        &&& a.demuxer_seeks() == b.demuxer_seeks()
        &&& a.source_tracks() == b.source_tracks()
    }

    /// What finishing a step does once the audio branch stepped with
    /// `audio_result`, from `before` to `after` with result `r`: a drained
    /// branch ends the step with `DecoderDrained` and nothing else changes;
    /// otherwise the source moves once (see `source_step`), and the step
    /// made progress when the branch or the source did.
    pub open spec fn after_audio_outcome(
        before: Self,
        after: Self,
        audio_result: AudioStepResult,
        r: Result<PlaybackStepResult, PlaybackPipelineError>,
    ) -> bool {
        if audio_result is DecoderDrained {
            r == Ok::<PlaybackStepResult, PlaybackPipelineError>(PlaybackStepResult::DecoderDrained)
                && after == before
        } else {
            exists|moved: Result<bool, PlaybackPipelineError>|
                #[trigger] Self::source_step(before, after, moved) && r == step_outcome(
                    audio_result is Progress,
                    moved,
                )
        }
    }

    /// Finishes a step after the audio branch stepped with `audio_result`:
    /// a drained branch ends the step with `DecoderDrained` and nothing
    /// else changes; otherwise the source moves once (see `source_step`),
    /// and the step made progress when the branch or the source did.
    pub fn after_audio_step(&mut self, audio_result: AudioStepResult) -> (r: Result<
        PlaybackStepResult,
        PlaybackPipelineError,
    >)
        requires
            old(self).wf(),
        ensures
            final(self).wf(),
            Self::after_audio_outcome(*old(self), *final(self), audio_result, r),
    {
        let progressed = match audio_result {
            AudioStepResult::Progress => true,
            AudioStepResult::Blocked => false,
            AudioStepResult::DecoderDrained => {
                return Ok(PlaybackStepResult::DecoderDrained);
            },
        };
        let ghost before = *self;
        let moved = self.step_source();
        proof {
            assert(Self::source_step(before, *self, moved));
        }
        match moved {
            Ok(source_moved) => Ok(
                if progressed || source_moved {
                    PlaybackStepResult::Progress
                } else {
                    PlaybackStepResult::Blocked
                },
            ),
            Err(e) => Err(e),
        }
    }

    /// What one step of the pipeline does, from `before` to `after` with
    /// result `r`; see `step`.
    pub open spec fn step_relation(
        before: Self,
        after: Self,
        r: Result<PlaybackStepResult, PlaybackPipelineError>,
    ) -> bool {
        &&& (exists|mid: Self, audio: Result<AudioStepResult, AudioPipelineError>|
            {
                &&& mid.wf()
                &&& Self::same_but_branch(before, mid)
                &&& #[trigger] AudioPipeline::step_relation(before.branch(), mid.branch(), audio)
                &&& match audio {
                    Err(e) => r == Err::<PlaybackStepResult, PlaybackPipelineError>(
                        PlaybackPipelineError::Audio(e),
                    ) && after == mid,
                    Ok(a) => Self::after_audio_outcome(mid, after, a, r),
                }
            })
        &&& (after.spec_epoch() == before.spec_epoch())
        &&& (after.audio_track() == before.audio_track())
        &&& (after.branch().spec_epoch() == before.branch().spec_epoch())
        &&& (r matches Ok(PlaybackStepResult::DecoderDrained) ==> after.branch().phase()
            == AudioPhase::DecoderDrained)
        &&& (before.branch().phase() == AudioPhase::DecoderDrained
            && before.branch().pending_frame() is None ==> r matches Ok(
            PlaybackStepResult::DecoderDrained,
        ))
        &&& (r matches Err(e) ==> e is Demux || e is Audio || e is EpochMismatch)
        &&& (r matches Ok(PlaybackStepResult::Blocked) ==> after.branch().queued() == before.branch().queued()
            && after.branch().phase() == before.branch().phase()
            && after.branch().pending_input() == before.branch().pending_input()
            && after.branch().pending_frame() == before.branch().pending_frame()
            && after.branch().handed() == before.branch().handed()
            && after.branch().delivered() == before.branch().delivered()
            && after.source_phase() == before.source_phase()
            && (before.pending_packet() is None ==> after.pending_packet() is None)
            && (before.pending_packet() matches Some(i) ==> after.pending_packet() matches Some(j)
            && j.epoch() == i.epoch() && j.spec_value() == i.spec_value()))
    }

    /// Moves the audio branch first, so that its queue makes room, then the
    /// source: the branch steps as `AudioPipeline::step_relation` says; its
    /// failure ends the step; otherwise the step finishes as
    /// `after_audio_outcome` says. `DecoderDrained` means the branch has
    /// played out.
    pub fn step(&mut self) -> (r: Result<PlaybackStepResult, PlaybackPipelineError>)
        requires
            old(self).wf(),
        ensures
            final(self).wf(),
            Self::step_relation(*old(self), *final(self), r),
    {
        let ghost start = *self;
        let stepped = self.audio.step();
        let ghost mid = *self;
        proof {
            assert(Self::same_but_branch(start, mid));
            assert(AudioPipeline::step_relation(start.branch(), mid.branch(), stepped));
        }
        let audio_result = match stepped {
            Ok(value) => value,
            Err(e) => return Err(PlaybackPipelineError::Audio(e)),
        };
        let r = self.after_audio_step(audio_result);
        proof {
            assert(Self::after_audio_outcome(mid, *self, audio_result, r));
        }
        r
    }

    pub fn start(&mut self) -> (r: Result<(), PlaybackPipelineError>)
        requires
            old(self).wf(),
        ensures
            final(self).wf(),
            final(self).spec_epoch() == old(self).spec_epoch(),
            final(self).branch().same_branch(old(self).branch()),
            r matches Err(e) ==> e matches PlaybackPipelineError::Audio(AudioPipelineError::Output(
                _,
            )),
            r is Ok ==> final(self).branch().output_started(),
            final(self).demuxer_seeks() == old(self).demuxer_seeks(),
    {
        match self.audio.start() {
            Ok(()) => Ok(()),
            Err(e) => Err(PlaybackPipelineError::Audio(e)),
        }
    }

    pub fn pause(&mut self) -> (r: Result<(), PlaybackPipelineError>)
        requires
            old(self).wf(),
        ensures
            final(self).wf(),
            final(self).spec_epoch() == old(self).spec_epoch(),
            final(self).demuxer_seeks() == old(self).demuxer_seeks(),
            final(self).branch().same_branch(old(self).branch()),
            r matches Err(e) ==> e matches PlaybackPipelineError::Audio(AudioPipelineError::Output(
                _,
            )),
            r is Ok ==> !final(self).branch().output_started(),
            final(self).branch().output_drains() == old(self).branch().output_drains(),
    {
        match self.audio.pause() {
            Ok(()) => Ok(()),
            Err(e) => Err(PlaybackPipelineError::Audio(e)),
        }
    }

    /// The media time of the audio play head now: the output's frame count
    /// read through the audio clock.
    pub fn clock_snapshot(&mut self) -> (r: Result<ClockSnapshot, PlaybackPipelineError>)
        requires
            old(self).wf(),
        ensures
            final(self).wf(),
            final(self).spec_epoch() == old(self).spec_epoch(),
            final(self).demuxer_seeks() == old(self).demuxer_seeks(),
            final(self).audio_clock() == old(self).audio_clock(),
            final(self).branch().same_branch(old(self).branch()),
            r matches Err(e) ==> e is Audio || e is Clock,
            match r {
                Err(PlaybackPipelineError::Audio(_)) => final(self).branch().positions() == old(self).branch().positions(),
                _ => final(self).branch().positions().len() == old(self).branch().positions().len()
                    + 1 && final(self).branch().positions().drop_last() == old(self).branch().positions() && AudioClock::snapshot_outcome(
                    old(self).audio_clock(),
                    final(self).branch().positions().last(),
                    match r {
                        Ok(s) => Ok(s),
                        Err(PlaybackPipelineError::Clock(e)) => Err(e),
                        Err(_) => Err(ClockError::Overflow),
                    },
                ),
            },
    {
        let position = match self.audio.playback_position() {
            Ok(position) => position,
            Err(e) => return Err(PlaybackPipelineError::Audio(e)),
        };
        match self.clock.snapshot(position) {
            Ok(snapshot) => Ok(snapshot),
            Err(e) => Err(PlaybackPipelineError::Clock(e)),
        }
    }

    /// Whether the audio branch has played everything of this generation.
    pub fn is_finished(&mut self) -> (r: Result<bool, PlaybackPipelineError>)
        requires
            old(self).wf(),
        ensures
            final(self).wf(),
            final(self).spec_epoch() == old(self).spec_epoch(),
            final(self).demuxer_seeks() == old(self).demuxer_seeks(),
            final(self).branch().same_branch(old(self).branch()),
            r matches Ok(true) ==> old(self).branch().phase() == AudioPhase::DecoderDrained,
            !(old(self).branch().phase() == AudioPhase::DecoderDrained
                && old(self).branch().pending_frame() is None) ==> r matches Ok(false),
            r matches Err(e) ==> e matches PlaybackPipelineError::Audio(AudioPipelineError::Output(
                _,
            )),
            match r {
                Ok(finished) => if old(self).branch().phase() == AudioPhase::DecoderDrained
                    && old(self).branch().pending_frame() is None {
                    final(self).branch().output_drains() == old(self).branch().output_drains().push(
                        finished,
                    )
                } else {
                    final(self).branch().output_drains() == old(self).branch().output_drains()
                },
                Err(_) => final(self).branch().output_drains() == old(self).branch().output_drains(),
            },
    {
        match self.audio.is_finished() {
            Ok(finished) => Ok(finished),
            Err(e) => Err(PlaybackPipelineError::Audio(e)),
        }
    }

    #[verifier::when_used_as_spec(spec_epoch)]
    pub fn epoch(&self) -> (r: PlaybackEpoch)
        ensures
            r == self.spec_epoch(),
    {
        self.epoch
    }

    /// What a seek to `target` in generation `new_epoch` does, from `before`
    /// to `after` with result `r`; see `seek`.
    pub open spec fn seek_relation(
        before: Self,
        after: Self,
        target: MediaTime,
        new_epoch: PlaybackEpoch,
        r: Result<SeekOutcome, PlaybackPipelineError>,
    ) -> bool {
        &&& after.audio_track() == before.audio_track()
        &&& (new_epoch.value() <= before.spec_epoch().value() ==> (r matches Err(e) && e == (
        PlaybackPipelineError::InvalidSeekEpoch {
            current: before.spec_epoch(),
            requested: new_epoch,
        }) && after.spec_epoch() == before.spec_epoch()))
        &&& (r matches Ok(outcome) ==> {
            &&& outcome.requesteed == target
            &&& outcome.epoch == new_epoch
            &&& after.spec_epoch() == new_epoch
            &&& new_epoch.value() > before.spec_epoch().value()
            &&& after.source_phase() == SourcePhase::Reading
            &&& after.pending_packet() is None
            &&& after.branch().spec_epoch() == new_epoch
            &&& after.branch().phase() == AudioPhase::Feeding
            &&& after.branch().queued() == Seq::<Packet>::empty()
            &&& after.branch().pending_input() is None
            &&& after.branch().pending_frame() is None
            &&& after.audio_clock().anchor_media() == outcome.landed
            &&& after.audio_clock().spec_sample_rate() == before.audio_clock().spec_sample_rate()
            &&& after.demuxer_seeks() == before.demuxer_seeks().push(target)
            &&& after.demuxer_landings() == before.demuxer_landings().push(outcome.landed)
            &&& after.branch().decoder_flushes() == before.branch().decoder_flushes() + 1
            &&& after.branch().output_flushes() == before.branch().output_flushes() + 1
            &&& after.branch().positions().len() == before.branch().positions().len() + 1
            &&& after.audio_clock().anchor_played_frames()
                == after.branch().positions().last().played_frames()
        })
        &&& (new_epoch.value() <= before.spec_epoch().value() ==> after.demuxer_seeks()
            == before.demuxer_seeks())
        &&& (new_epoch.value() > before.spec_epoch().value() ==> !(r matches Err(
            PlaybackPipelineError::InvalidSeekEpoch { .. },
        )))
        &&& (new_epoch.value() > before.spec_epoch().value() ==> (after.demuxer_seeks()
            == before.demuxer_seeks().push(target) || (r matches Err(
            PlaybackPipelineError::Audio(_),
        ) && after.demuxer_seeks() == before.demuxer_seeks())))
        &&& (r is Err ==> after.spec_epoch() == before.spec_epoch())
    }

    /// A seek that succeeds lands where the demuxer's seek for that target
    /// landed: the outcome's landing point, the anchor of the new audio clock
    /// and the demuxer's record of landings agree, the demuxer was asked for
    /// exactly `target`, and the outcome reports the target and the new
    /// generation.
    pub proof fn lemma_seek_lands_where_the_demuxer_lands(
        before: Self,
        after: Self,
        target: MediaTime,
        new_epoch: PlaybackEpoch,
        outcome: SeekOutcome,
    )
        requires
            Self::seek_relation(before, after, target, new_epoch, Ok(outcome)),
        ensures
            after.demuxer_landings().len() == before.demuxer_landings().len() + 1,
            after.demuxer_landings().last() == outcome.landed,
            after.audio_clock().anchor_media() == outcome.landed,
            after.demuxer_seeks().last() == target,
            outcome.requesteed == target,
            outcome.epoch == new_epoch,
            after.spec_epoch() == new_epoch,
    {
    }

    /// Seeks to `target` in a new, later generation `new_epoch`: the waiting
    /// packet is dropped, the audio branch is reset to the new generation,
    /// the demuxer moves, the audio clock is anchored at the landing point
    /// and the output's current frame count, and reading resumes. A
    /// generation that is not later than the current one is refused with
    /// nothing changed.
    pub fn seek(&mut self, target: MediaTime, new_epoch: PlaybackEpoch) -> (r: Result<
        SeekOutcome,
        PlaybackPipelineError,
    >)
        requires
            old(self).wf(),
        ensures
            final(self).wf(),
            Self::seek_relation(*old(self), *final(self), target, new_epoch, r),
    {
        if new_epoch.value() <= self.epoch.value() {
            return Err(
                PlaybackPipelineError::InvalidSeekEpoch { current: self.epoch, requested: new_epoch },
            );
        }
        self.pending_packet = None;
        match self.audio.reset(new_epoch) {
            Ok(()) => {},
            Err(e) => return Err(PlaybackPipelineError::Audio(e)),
        }
        let landed = match self.demuxer.seek(target) {
            Ok(value) => value,
            Err(e) => return Err(PlaybackPipelineError::Demux(e)),
        };
        let position = match self.audio.playback_position() {
            Ok(position) => position,
            Err(e) => return Err(PlaybackPipelineError::Audio(e)),
        };
        self.clock = match AudioClock::new(self.clock.sample_rate(), landed, position.played_frames()) {
            Ok(clock) => clock,
            Err(e) => return Err(PlaybackPipelineError::Clock(e)),
        };
        self.epoch = new_epoch;
        self.source_phase = SourcePhase::Reading;
        Ok(SeekOutcome { requesteed: target, landed, epoch: new_epoch })
    }
}

} // verus!
