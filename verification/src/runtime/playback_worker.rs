//! The decisions of the playback worker: it owns the playback pipeline of
//! one session, applies the commands sent to it, steps the pipeline while it
//! runs, and tells what to report back. The thread, the command channel,
//! the cancellation check and the clock of its loop stay with the caller.
use crate::error::{PlaybackError, RuntimeError};
use crate::media::frame::AudioBuffer;
use crate::media::time::MediaTime;
use crate::pipeline::epoch::PlaybackEpoch;
use crate::pipeline::audio::{AudioPhase, AudioPipelineError};
use crate::pipeline::playback::{PlaybackPipeline, PlaybackPipelineError, PlaybackStepResult};
use crate::ports::audio_output::AudioOutput;
use crate::ports::decoder::Decoder;
use crate::ports::demuxer::Demuxer;
use crate::runtime::worker::WorkerEvent;
use crate::timing::clock::{AudioClock, ClockSnapshot};
use vstd::prelude::*;

verus! {

/// What a playback worker is asked to do.
#[derive(Debug)]
pub enum PlaybackWorkerAction {
    Start,
    Pause,
    Seek { target: MediaTime },
}

/// What one step of the worker did: whether the caller should wait for the
/// next command before stepping again, and the failure to report, if any.
#[derive(Debug)]
pub struct WorkerStepOutcome {
    pub wait: bool,
    pub failure: Option<WorkerEvent>,
}

/// What one turn of the worker's loop decided before stepping: the reports
/// to send, in order, whether the turn got as far as the due progress report
/// (so that its timer starts again), and whether to step the pipeline now.
#[derive(Debug)]
pub struct WorkerTick {
    pub reports: Vec<WorkerEvent>,
    pub progress_checked: bool,
    pub step: bool,
}

/// The reports of a turn: at most two, all of generation `epoch`, every one
/// but the last a progress report, a progress report only when one was due,
/// and a failure only as the last one.
pub open spec fn tick_reports_ok(reports: Seq<WorkerEvent>, epoch: PlaybackEpoch, progress_due: bool) -> bool {
    &&& reports.len() <= 2
    &&& forall|i: int| 0 <= i < reports.len() ==> (#[trigger] reports[i]).epoch() == epoch
    &&& forall|i: int| 0 <= i < reports.len() - 1 ==> (#[trigger] reports[i]) is AudioProgress
    &&& forall|i: int| 0 <= i < reports.len() && (#[trigger] reports[i]) is AudioProgress
        ==> progress_due
    &&& forall|i: int| 0 <= i < reports.len() ==> (#[trigger] reports[i]) is AudioProgress
        || reports[i] is Failed || reports[i] is PlaybackCompleted
}

/// The state of a playback worker.
pub struct PlaybackWorker<X, D, O> {
    pipeline: Option<PlaybackPipeline<X, D, O>>,
    feedback_epoch: PlaybackEpoch,
    running: bool,
    decoder_drained: bool,
    completion_reported: bool,
}

impl<X, D, O> PlaybackWorker<X, D, O> where
    X: Demuxer,
    D: Decoder<Output = AudioBuffer>,
    O: AudioOutput,
 {
    /// The pipeline, when there is one, is well formed.
    pub closed spec fn wf(&self) -> bool {
        self.pipeline matches Some(p) ==> p.wf()
    }

    /// The pipeline of the session, if it was built and not closed.
    pub closed spec fn session(&self) -> Option<PlaybackPipeline<X, D, O>> {
        self.pipeline
    }

    /// The generation that reports are tagged with: that of the last command.
    pub closed spec fn feedback_epoch(&self) -> PlaybackEpoch {
        self.feedback_epoch
    }

    pub closed spec fn running(&self) -> bool {
        self.running
    }

    pub closed spec fn decoder_drained(&self) -> bool {
        self.decoder_drained
    }

    pub closed spec fn completion_reported(&self) -> bool {
        self.completion_reported
    }

    /// A stopped worker for the pipeline built for generation `epoch`, or
    /// for none when building it failed.
    pub fn new(pipeline: Option<PlaybackPipeline<X, D, O>>, epoch: PlaybackEpoch) -> (r: Self)
        requires
            pipeline matches Some(p) ==> p.wf(),
        ensures
            r.wf(),
            r.session() == pipeline,
            r.feedback_epoch() == epoch,
            !r.running() && !r.decoder_drained() && !r.completion_reported(),
    {
        PlaybackWorker {
            pipeline,
            feedback_epoch: epoch,
            running: false,
            decoder_drained: false,
            completion_reported: false,
        }
    }

    #[verifier::when_used_as_spec(running)]
    pub fn is_running(&self) -> (r: bool)
        ensures
            r == self.running(),
    {
        self.running
    }

    /// Stops the worker and drops the pipeline, pausing it first (a failure
    /// to pause is ignored: the session ends anyway).
    pub fn close_pipeline(&mut self)
        requires
            old(self).wf(),
        ensures
            final(self).wf(),
            final(self).session() is None,
            final(self).feedback_epoch() == old(self).feedback_epoch(),
            !final(self).running() && !final(self).decoder_drained() && !final(self).completion_reported(),
    {
        self.running = false;
        self.decoder_drained = false;
        self.completion_reported = false;
        if let Some(mut pipeline) = self.pipeline.take() {
            let _ = pipeline.pause();
        }
    }

    /// Closes the session and returns the failure report for it.
    pub fn report_failure(&mut self, error: PlaybackError) -> (r: WorkerEvent)
        requires
            old(self).wf(),
        ensures
            final(self).wf(),
            final(self).session() is None,
            final(self).feedback_epoch() == old(self).feedback_epoch(),
            !final(self).running() && !final(self).decoder_drained() && !final(self).completion_reported(),
            (r matches WorkerEvent::Failed { epoch, error: e } && epoch == old(self).feedback_epoch()
                && e == error),
    {
        self.close_pipeline();
        WorkerEvent::Failed { epoch: self.feedback_epoch, error }
    }

    /// The first report of the worker: preparation completed, or the failure
    /// to build the pipeline (which closes the session).
    pub fn prepared(&mut self, preparation_error: Option<PlaybackError>) -> (r: WorkerEvent)
        requires
            old(self).wf(),
        ensures
            final(self).wf(),
            final(self).feedback_epoch() == old(self).feedback_epoch(),
            match preparation_error {
                Some(error) => final(self).session() is None && !final(self).running()
                    && !final(self).decoder_drained() && !final(self).completion_reported() && (r matches WorkerEvent::Failed {
                    epoch,
                    error: e,
                } && epoch == old(self).feedback_epoch() && e == error),
                None => (r matches WorkerEvent::PreparationCompleted { epoch } && epoch == old(self).feedback_epoch()) && final(self).session() == old(self).session()
                    && final(self).running() == old(self).running() && final(self).decoder_drained()
                    == old(self).decoder_drained() && final(self).completion_reported()
                    == old(self).completion_reported(),
            },
    {
        match preparation_error {
            Some(error) => self.report_failure(error),
            None => WorkerEvent::PreparationCompleted { epoch: self.feedback_epoch },
        }
    }

    /// Applies a command of generation `command_epoch`; later reports are
    /// tagged with that generation.
    ///
    /// Start and Pause are refused unless the pipeline is of that
    /// generation; Start does nothing once completion was reported. Seek moves
    /// the pipeline to the new generation, forgets that the decoder drained
    /// and that completion was reported, and restarts output if the worker
    /// was running.
    pub fn apply_command(&mut self, action: PlaybackWorkerAction, command_epoch: PlaybackEpoch) -> (r:
        Result<(), PlaybackError>)
        requires
            old(self).wf(),
        ensures
            final(self).wf(),
            final(self).feedback_epoch() == command_epoch,
            final(self).session() is Some <==> old(self).session() is Some,
            old(self).session() is None ==> r matches Err(
                PlaybackError::Runtime(RuntimeError::SessionFailed),
            ),
            old(self).session() matches Some(p) ==> match action {
                PlaybackWorkerAction::Start => if command_epoch != p.spec_epoch() {
                    r matches Err(PlaybackError::Runtime(RuntimeError::EpochMismatch { expected, actual }))
                        && expected == p.spec_epoch() && actual == command_epoch && final(self).running() == old(self).running()
                } else if old(self).completion_reported() {
                    r is Ok && final(self).running() == old(self).running()
                } else {
                    (r is Ok && final(self).running() && (final(self).session() matches Some(q)
                        && q.branch().output_started())) || (r matches Err(PlaybackError::Pipeline(_))
                        && final(self).running() == old(self).running())
                },
                PlaybackWorkerAction::Pause => if command_epoch != p.spec_epoch() {
                    r matches Err(PlaybackError::Runtime(RuntimeError::EpochMismatch { expected, actual }))
                        && expected == p.spec_epoch() && actual == command_epoch && final(self).running() == old(self).running()
                } else {
                    (r is Ok && !final(self).running() && (final(self).session() matches Some(q)
                        && !q.branch().output_started())) || (r matches Err(PlaybackError::Pipeline(_))
                        && final(self).running() == old(self).running())
                },
                PlaybackWorkerAction::Seek { target } => {
                    &&& final(self).running() == old(self).running()
                    &&& r is Ok ==> (final(self).session() matches Some(q) && q.demuxer_seeks()
                        == p.demuxer_seeks().push(target))
                    &&& command_epoch.value() > p.spec_epoch().value() ==> !(r matches Err(
                        PlaybackError::Pipeline(PlaybackPipelineError::InvalidSeekEpoch { .. }),
                    ))
                    &&& command_epoch.value() > p.spec_epoch().value() ==> (final(self).session() matches Some(q)
                        && (q.demuxer_seeks() == p.demuxer_seeks().push(target) || (r matches Err(
                        PlaybackError::Pipeline(PlaybackPipelineError::Audio(_)),
                    ) && q.demuxer_seeks() == p.demuxer_seeks())))
                    &&& command_epoch.value() <= p.spec_epoch().value() ==> r == Err::<
                        (),
                        PlaybackError,
                    >(
                        PlaybackError::Pipeline(
                            PlaybackPipelineError::InvalidSeekEpoch {
                                current: p.spec_epoch(),
                                requested: command_epoch,
                            },
                        ),
                    )
                    &&& r matches Err(e) ==> e is Pipeline
                    &&& r is Ok ==> (final(self).session() matches Some(q) && q.spec_epoch()
                        == command_epoch && !final(self).decoder_drained()
                        && !final(self).completion_reported())
                    &&& (r is Ok && old(self).running()) ==> (final(self).session() matches Some(q)
                        && q.branch().output_started())
                },
            },
            final(self).decoder_drained() ==> old(self).decoder_drained(),
    {
        self.feedback_epoch = command_epoch;
        let pipeline = match self.pipeline.as_mut() {
            Some(pipeline) => pipeline,
            None => return Err(PlaybackError::Runtime(RuntimeError::SessionFailed)),
        };
        match action {
            PlaybackWorkerAction::Start => {
                if command_epoch != pipeline.epoch() {
                    return Err(
                        PlaybackError::Runtime(
                            RuntimeError::EpochMismatch {
                                expected: pipeline.epoch(),
                                actual: command_epoch,
                            },
                        ),
                    );
                }
                if self.completion_reported {
                    return Ok(());
                }
                match pipeline.start() {
                    Ok(()) => {},
                    Err(e) => return Err(PlaybackError::Pipeline(e)),
                }
                self.running = true;
            },
            PlaybackWorkerAction::Pause => {
                if command_epoch != pipeline.epoch() {
                    return Err(
                        PlaybackError::Runtime(
                            RuntimeError::EpochMismatch {
                                expected: pipeline.epoch(),
                                actual: command_epoch,
                            },
                        ),
                    );
                }
                match pipeline.pause() {
                    Ok(()) => {},
                    Err(e) => return Err(PlaybackError::Pipeline(e)),
                }
                self.running = false;
            },
            PlaybackWorkerAction::Seek { target } => {
                match pipeline.seek(target, command_epoch) {
                    Ok(_) => {},
                    Err(e) => return Err(PlaybackError::Pipeline(e)),
                }
                self.decoder_drained = false;
                self.completion_reported = false;
                if self.running {
                    match pipeline.start() {
                        Ok(()) => {},
                        Err(e) => return Err(PlaybackError::Pipeline(e)),
                    }
                }
            },
        }
        Ok(())
    }

    /// Applies a command; a refused or failed command closes the session
    /// and gives the failure to report.
    pub fn on_command(&mut self, action: PlaybackWorkerAction, command_epoch: PlaybackEpoch) -> (r:
        Option<WorkerEvent>)
        requires
            old(self).wf(),
        ensures
            final(self).wf(),
            final(self).feedback_epoch() == command_epoch,
            r matches Some(event) ==> event is Failed && event.epoch() == command_epoch && final(self).session() is None && !final(self).running(),
            final(self).running() ==> old(self).running() || action is Start,
            final(self).session() is Some ==> old(self).session() is Some,
            action is Start && (old(self).session() matches Some(p) && p.spec_epoch()
                == command_epoch) && !old(self).completion_reported() ==> final(self).running()
                || r is Some,
            action is Pause ==> !final(self).running(),
            r is None && old(self).session() is Some ==> final(self).session() is Some,
            match action {
                PlaybackWorkerAction::Seek { target } => (old(self).session() matches Some(p)
                    && command_epoch.value() > p.spec_epoch().value() && r is None) ==> (final(self).session() matches Some(q) && q.spec_epoch() == command_epoch
                    && q.demuxer_seeks() == old(self).session()->0.demuxer_seeks().push(target)),
                _ => true,
            },
    {
        match self.apply_command(action, command_epoch) {
            Ok(()) => None,
            Err(error) => Some(self.report_failure(error)),
        }
    }

    /// The progress report that is due: the media time of the play head, or
    /// — when it cannot be read — the failure, which closes the session.
    /// Nothing without a session.
    pub fn report_progress(&mut self) -> (r: Option<WorkerEvent>)
        requires
            old(self).wf(),
        ensures
            final(self).wf(),
            final(self).feedback_epoch() == old(self).feedback_epoch(),
            old(self).session() is None <==> r is None,
            r matches Some(event) ==> event.epoch() == old(self).feedback_epoch() && (
            event is AudioProgress || (event is Failed && final(self).session() is None
                && !final(self).running())),
            final(self).session() is Some ==> old(self).session() is Some,
            final(self).session() matches Some(q) ==> q.spec_epoch() == old(self).session()->0.spec_epoch()
                && q.demuxer_seeks() == old(self).session()->0.demuxer_seeks(),
            old(self).session() matches Some(p) ==> (r matches Some(
                WorkerEvent::AudioProgress { media_time, .. },
            ) ==> (final(self).session() matches Some(q) && q.branch().positions().len()
                == p.branch().positions().len() + 1 && exists|s: ClockSnapshot|
                #[trigger] AudioClock::snapshot_outcome(
                    p.audio_clock(),
                    q.branch().positions().last(),
                    Ok(s),
                ) && s.media_time() == media_time)),
            (r is None || r matches Some(WorkerEvent::AudioProgress { .. })) ==> final(self).running() == old(self).running() && final(self).decoder_drained() == old(self).decoder_drained()
                && final(self).completion_reported() == old(self).completion_reported(),
    {
        let pipeline = match self.pipeline.as_mut() {
            Some(pipeline) => pipeline,
            None => return None,
        };
        match pipeline.clock_snapshot() {
            Ok(snapshot) => Some(
                WorkerEvent::AudioProgress {
                    epoch: self.feedback_epoch,
                    media_time: snapshot.media_time(),
                },
            ),
            Err(error) => Some(self.report_failure(PlaybackError::Pipeline(error))),
        }
    }

    /// Whether playback just completed: the worker runs, the decoder
    /// drained, completion was not reported yet, and the pipeline played
    /// everything; then the output is paused and completion is recorded, so
    /// that it is reported once per generation.
    pub fn poll_completion(&mut self) -> (r: Result<bool, PlaybackError>)
        requires
            old(self).wf(),
        ensures
            final(self).wf(),
            final(self).feedback_epoch() == old(self).feedback_epoch(),
            final(self).decoder_drained() == old(self).decoder_drained(),
            !old(self).running() || !old(self).decoder_drained() || old(self).completion_reported()
                ==> (r matches Ok(false) && final(self).running() == old(self).running()
                && final(self).completion_reported() == old(self).completion_reported()),
            r matches Ok(true) ==> !final(self).running() && final(self).completion_reported()
                && !old(self).completion_reported() && (final(self).session() matches Some(q)
                && !q.branch().output_started()),
            r matches Ok(false) ==> final(self).running() == old(self).running()
                && final(self).completion_reported() == old(self).completion_reported(),
            r is Err ==> final(self).running() == old(self).running()
                && final(self).completion_reported() == old(self).completion_reported(),
            final(self).session() is Some <==> old(self).session() is Some,
            final(self).session() matches Some(q) ==> q.spec_epoch() == old(self).session()->0.spec_epoch()
                && q.demuxer_seeks() == old(self).session()->0.demuxer_seeks(),
            old(self).running() && old(self).decoder_drained() && !old(self).completion_reported()
                ==> match old(self).session() {
                None => r matches Err(PlaybackError::Runtime(RuntimeError::SessionFailed)),
                Some(p) => {
                    &&& !(p.branch().phase() == AudioPhase::DecoderDrained
                        && p.branch().pending_frame() is None) ==> (r matches Ok(false)
                        && final(self).running() && !final(self).completion_reported())
                    &&& (p.branch().phase() == AudioPhase::DecoderDrained
                        && p.branch().pending_frame() is None && r is Ok) ==> (final(self).session() matches Some(q)
                        && q.branch().output_drains().len() == p.branch().output_drains().len() + 1
                        && r == Ok::<bool, PlaybackError>(q.branch().output_drains().last()))
                },
            },
            r matches Err(e) ==> e == PlaybackError::Runtime(RuntimeError::SessionFailed)
                || e matches PlaybackError::Pipeline(
                PlaybackPipelineError::Audio(AudioPipelineError::Output(_)),
            ),
    {
        if !self.running || !self.decoder_drained || self.completion_reported {
            return Ok(false);
        }
        let pipeline = match self.pipeline.as_mut() {
            Some(pipeline) => pipeline,
            None => return Err(PlaybackError::Runtime(RuntimeError::SessionFailed)),
        };
        let finished = match pipeline.is_finished() {
            Ok(value) => value,
            Err(e) => return Err(PlaybackError::Pipeline(e)),
        };
        if !finished {
            return Ok(false);
        }
        match pipeline.pause() {
            Ok(()) => {},
            Err(e) => return Err(PlaybackError::Pipeline(e)),
        }
        self.running = false;
        self.completion_reported = true;
        Ok(true)
    }

    /// Checks for completion: the completion report, the failure (which
    /// closes the session), or nothing.
    pub fn on_poll(&mut self) -> (r: Option<WorkerEvent>)
        requires
            old(self).wf(),
        ensures
            final(self).wf(),
            final(self).feedback_epoch() == old(self).feedback_epoch(),
            r matches Some(event) ==> event.epoch() == old(self).feedback_epoch(),
            r matches Some(WorkerEvent::PlaybackCompleted { .. }) ==> final(self).completion_reported() && !old(self).completion_reported() && !final(self).running()
                && (final(self).session() matches Some(q) && !q.branch().output_started()),
            r matches Some(WorkerEvent::Failed { .. }) ==> final(self).session() is None && !final(self).running(),
            old(self).session() is Some && final(self).session() is None ==> r matches Some(
                WorkerEvent::Failed { .. },
            ),
            final(self).session() is Some ==> old(self).session() is Some,
            final(self).session() matches Some(q) ==> q.spec_epoch() == old(self).session()->0.spec_epoch()
                && q.demuxer_seeks() == old(self).session()->0.demuxer_seeks(),
            r is None ==> final(self).running() == old(self).running() && final(self).completion_reported() == old(self).completion_reported() && final(self).decoder_drained() == old(self).decoder_drained(),
            r matches Some(event) ==> event is PlaybackCompleted || event is Failed,
            old(self).running() && old(self).decoder_drained() && !old(self).completion_reported()
                ==> match old(self).session() {
                None => r matches Some(WorkerEvent::Failed { error, .. }) && error
                    == PlaybackError::Runtime(RuntimeError::SessionFailed),
                Some(p) => !(p.branch().phase() == AudioPhase::DecoderDrained
                    && p.branch().pending_frame() is None) ==> r is None,
            },
    {
        match self.poll_completion() {
            Ok(true) => Some(WorkerEvent::PlaybackCompleted { epoch: self.feedback_epoch }),
            Ok(false) => None,
            Err(error) => Some(self.report_failure(error)),
        }
    }

    /// One turn of the loop up to the step: applies the command, if one came
    /// (with the generation of the channel it came on); reports progress when
    /// it is due; checks for completion; and tells whether to step. A
    /// failure closes the session and ends the turn.
    pub fn on_tick(
        &mut self,
        command: Option<(PlaybackWorkerAction, PlaybackEpoch)>,
        progress_due: bool,
    ) -> (r: WorkerTick)
        requires
            old(self).wf(),
        ensures
            final(self).wf(),
            match command {
                Some((_, epoch)) => final(self).feedback_epoch() == epoch,
                None => final(self).feedback_epoch() == old(self).feedback_epoch(),
            },
            tick_reports_ok(r.reports@, final(self).feedback_epoch(), progress_due),
            forall|i: int| 0 <= i < r.reports@.len() && (#[trigger] r.reports@[i]) is Failed
                ==> final(self).session() is None,
            forall|i: int| 0 <= i < r.reports@.len() && (#[trigger] r.reports@[i]) is PlaybackCompleted
                ==> final(self).completion_reported() && !final(self).running(),
            r.step == (final(self).running() && !final(self).decoder_drained()
                && final(self).session() is Some),
            final(self).running() ==> old(self).running() || command matches Some(
                (PlaybackWorkerAction::Start, _),
            ),
            final(self).session() is Some ==> old(self).session() is Some,
            old(self).session() is Some && final(self).session() is None ==> exists|i: int|
                0 <= i < r.reports@.len() && (#[trigger] r.reports@[i]) is Failed,
            match command {
                Some((PlaybackWorkerAction::Start, epoch)) => (old(self).session() matches Some(p)
                    && p.spec_epoch() == epoch && !old(self).completion_reported()) ==> (final(self).running() || exists|i: int|
                    0 <= i < r.reports@.len() && ((#[trigger] r.reports@[i]) is Failed
                        || r.reports@[i] is PlaybackCompleted)),
                Some((PlaybackWorkerAction::Pause, _)) => !final(self).running(),
                Some((PlaybackWorkerAction::Seek { target }, epoch)) => (old(self).session() matches Some(p)
                    && epoch.value() > p.spec_epoch().value()) ==> (final(self).session() matches Some(q)
                    ==> q.spec_epoch() == epoch && q.demuxer_seeks() == old(self).session()->0.demuxer_seeks().push(target)),
                None => true,
            },
            r.progress_checked ==> progress_due,
            progress_due && !r.progress_checked ==> (command is Some && r.reports@.len() == 1
                && r.reports@[0] is Failed),
            command is None ==> r.progress_checked == progress_due,
            command is None && r.reports@.len() == 0 ==> final(self).running() == old(self).running()
                && final(self).decoder_drained() == old(self).decoder_drained()
                && final(self).completion_reported() == old(self).completion_reported(),
    {
        let mut reports: Vec<WorkerEvent> = Vec::new();
        let mut progress_checked = false;
        if let Some((action, epoch)) = command {
            if let Some(failure) = self.on_command(action, epoch) {
                reports.push(failure);
                proof {
                    assert(reports@[0] == failure);
                }
                return WorkerTick { reports, progress_checked, step: false };
            }
        }
        if progress_due {
            progress_checked = true;
            if let Some(report) = self.report_progress() {
                let failed = match report {
                    WorkerEvent::Failed { .. } => true,
                    _ => false,
                };
                reports.push(report);
                proof {
                    assert(reports@[reports@.len() - 1] == report);
                }
                if failed {
                    return WorkerTick { reports, progress_checked, step: false };
                }
            }
        }
        if let Some(report) = self.on_poll() {
            let failed = match report {
                WorkerEvent::Failed { .. } => true,
                _ => false,
            };
            reports.push(report);
            proof {
                assert(reports@[reports@.len() - 1] == report);
            }
            if failed {
                return WorkerTick { reports, progress_checked, step: false };
            }
        }
        let step = self.wants_step();
        WorkerTick { reports, progress_checked, step }
    }

    /// Whether the worker should step the pipeline now: it runs, the decoder
    /// has not drained, and there is a session.
    pub fn wants_step(&self) -> (r: bool)
        ensures
            r == (self.running() && !self.decoder_drained() && self.session() is Some),
    {
        self.running && !self.decoder_drained && self.pipeline.is_some()
    }

    /// Steps the pipeline once. Progress asks for another step at once;
    /// otherwise the caller waits. A drained decoder is recorded; a failure
    /// closes the session and is to be reported.
    pub fn step_once(&mut self) -> (r: WorkerStepOutcome)
        requires
            old(self).wf(),
        ensures
            final(self).wf(),
            final(self).feedback_epoch() == old(self).feedback_epoch(),
            old(self).session() is None ==> r.wait && r.failure is None && final(self).session()
                is None,
            r.failure matches Some(event) ==> event is Failed && event.epoch() == old(self).feedback_epoch() && final(self).session() is None && r.wait,
            !r.wait ==> r.failure is None && final(self).decoder_drained() == old(self).decoder_drained(),
            r.failure is None ==> final(self).running() == old(self).running() && final(self).completion_reported() == old(self).completion_reported(),
            old(self).decoder_drained() ==> final(self).decoder_drained() || r.failure is Some,
            old(self).session() is Some ==> exists|
                mid: Self,
                result: Result<PlaybackStepResult, PlaybackPipelineError>,
            |
                {
                    &&& mid.wf() && mid.session() is Some
                    &&& PlaybackPipeline::step_relation(old(self).session()->0, mid.session()->0, result)
                    &&& mid.feedback_epoch() == old(self).feedback_epoch()
                    &&& mid.running() == old(self).running()
                    &&& mid.decoder_drained() == old(self).decoder_drained()
                    &&& mid.completion_reported() == old(self).completion_reported()
                    &&& #[trigger] Self::step_result_outcome(mid, *final(self), result, r)
                },
    {
        let result = match self.pipeline.as_mut() {
            Some(pipeline) => pipeline.step(),
            None => return WorkerStepOutcome { wait: true, failure: None },
        };
        let ghost mid = *self;
        let r = self.on_step_result(result);
        proof {
            assert(Self::step_result_outcome(mid, *self, result, r));
        }
        r
    }

    /// What a step's `result` does to the worker `before`, giving `after`
    /// and the outcome `r`: progress asks for another step at once;
    /// blocked waits; a drained decoder is recorded and waits; a failure
    /// closes the session, waits, and is to be reported for the worker's
    /// generation. Nothing else changes.
    pub open spec fn step_result_outcome(
        before: Self,
        after: Self,
        result: Result<PlaybackStepResult, PlaybackPipelineError>,
        r: WorkerStepOutcome,
    ) -> bool {
        &&& after.feedback_epoch() == before.feedback_epoch()
        &&& match result {
            Ok(PlaybackStepResult::Progress) => !r.wait && r.failure is None && after == before,
            Ok(PlaybackStepResult::Blocked) => r.wait && r.failure is None && after == before,
            Ok(PlaybackStepResult::DecoderDrained) => {
                &&& r.wait && r.failure is None
                &&& after.decoder_drained()
                &&& after.session() == before.session()
                &&& after.running() == before.running()
                &&& after.completion_reported() == before.completion_reported()
            },
            Err(error) => {
                &&& r.wait
                &&& r.failure == Some(
                    WorkerEvent::Failed {
                        epoch: before.feedback_epoch(),
                        error: PlaybackError::Pipeline(error),
                    },
                )
                &&& after.session() is None
                &&& !after.running() && !after.decoder_drained() && !after.completion_reported()
            },
        }
    }

    /// Takes the result of a pipeline step; see `step_result_outcome`.
    pub fn on_step_result(&mut self, result: Result<PlaybackStepResult, PlaybackPipelineError>) -> (r:
        WorkerStepOutcome)
        requires
            old(self).wf(),
        ensures
            final(self).wf(),
            Self::step_result_outcome(*old(self), *final(self), result, r),
    {
        match result {
            Ok(PlaybackStepResult::Progress) => WorkerStepOutcome { wait: false, failure: None },
            Ok(PlaybackStepResult::Blocked) => WorkerStepOutcome { wait: true, failure: None },
            Ok(PlaybackStepResult::DecoderDrained) => {
                self.decoder_drained = true;
                WorkerStepOutcome { wait: true, failure: None }
            },
            Err(error) => {
                let event = self.report_failure(PlaybackError::Pipeline(error));
                WorkerStepOutcome { wait: true, failure: Some(event) }
            },
        }
    }
}

} // verus!
