use moonegg_core::pipeline::PlaybackStepResult;
use moonegg_core::backends::pcm::PcmDecoder;
use moonegg_core::backends::simulated_audio::SimulatedAudioOutput;
use moonegg_core::backends::wav::WavDemuxer;
use moonegg_core::error::{PlaybackError, RuntimeError};
use moonegg_core::media::{AudioCodecId, AudioTrackFormat, MediaTime, TimeBase, TrackFormat, TrackId, TrackInfo, VideoCodecId, VideoTrackFormat};
use moonegg_core::pipeline::{PlaybackEpoch, PlaybackPipelineError};
use moonegg_core::player::{PlayerCommand, PlayerEvent, PlayerState, StateAction, InvalidTransition};
use moonegg_core::runtime::effect_executor::{
    after_event_only, after_failure_report, on_control_error, on_effect_result, ControlErrorAction,
    EffectOutcomeAction,
};
use moonegg_core::runtime::pipeline_factory::first_audio_track;
use moonegg_core::runtime::worker::first_join_error;
use moonegg_core::runtime::{
    plan_effect, AudioPipelineFactory, CancellationToken, ControlEffect, ControlError,
    ControlLoopExit, EffectLoopExit, EffectPlan, PlaybackWorker, PlaybackWorkerAction,
    ShutdownReport, ThreadTermination, WorkerEvent, WorkerJoinError,
};

fn wav_bytes(samples: usize, rate: u32) -> Vec<u8> {
    let data: Vec<u8> = std::iter::repeat(7i16).take(samples).flat_map(|s| s.to_le_bytes()).collect();
    let mut fmt = Vec::new();
    fmt.extend_from_slice(&1u16.to_le_bytes());
    fmt.extend_from_slice(&1u16.to_le_bytes());
    fmt.extend_from_slice(&rate.to_le_bytes());
    fmt.extend_from_slice(&(rate * 2).to_le_bytes());
    fmt.extend_from_slice(&2u16.to_le_bytes());
    fmt.extend_from_slice(&16u16.to_le_bytes());
    let mut bytes = Vec::new();
    bytes.extend_from_slice(b"RIFF");
    bytes.extend_from_slice(&((4 + 8 + fmt.len() + 8 + data.len()) as u32).to_le_bytes());
    bytes.extend_from_slice(b"WAVE");
    bytes.extend_from_slice(b"fmt ");
    bytes.extend_from_slice(&(fmt.len() as u32).to_le_bytes());
    bytes.extend_from_slice(&fmt);
    bytes.extend_from_slice(b"data");
    bytes.extend_from_slice(&(data.len() as u32).to_le_bytes());
    bytes.extend_from_slice(&data);
    bytes
}

struct MemoryWavFactory {
    bytes: Vec<u8>,
}

impl AudioPipelineFactory for MemoryWavFactory {
    type Demux = WavDemuxer;
    type Decode = PcmDecoder;
    type Output = SimulatedAudioOutput;

    fn open_demuxer(&self, _cancel: &CancellationToken) -> Result<WavDemuxer, PlaybackError> {
        WavDemuxer::from_bytes(self.bytes.clone()).map_err(PlaybackError::Demux)
    }

    fn create_audio_components(
        &self,
        track: &TrackInfo,
        _cancel: &CancellationToken,
    ) -> Result<(PcmDecoder, SimulatedAudioOutput), PlaybackError> {
        let TrackFormat::Audio(format) = track.format() else {
            return Err(PlaybackError::Pipeline(PlaybackPipelineError::NoAudioTrack));
        };
        let decoder = PcmDecoder::new(track.id(), format.clone()).map_err(PlaybackError::Decode)?;
        let output = SimulatedAudioOutput::new(format.sample_rate(), format.channel_count(), 65_536)
            .map_err(PlaybackError::AudioOutput)?;
        Ok((decoder, output))
    }

    fn packet_capacity(&self) -> usize {
        8
    }
}

fn worker(samples: usize) -> PlaybackWorker<WavDemuxer, PcmDecoder, SimulatedAudioOutput> {
    let factory = MemoryWavFactory { bytes: wav_bytes(samples, 8_000) };
    let pipeline = factory.build(PlaybackEpoch::initial(), &CancellationToken::new()).unwrap();
    PlaybackWorker::new(Some(pipeline), PlaybackEpoch::initial())
}

#[test]
fn factory_builds_on_the_first_audio_track_and_honours_cancellation() {
    let factory = MemoryWavFactory { bytes: wav_bytes(100, 8_000) };
    let pipeline = factory.build(PlaybackEpoch::initial(), &CancellationToken::new()).unwrap();
    assert_eq!(pipeline.epoch(), PlaybackEpoch::initial());

    let cancel = CancellationToken::new();
    cancel.cancel();
    assert!(cancel.is_canceled());
    assert!(matches!(
        factory.build(PlaybackEpoch::initial(), &cancel),
        Err(PlaybackError::Runtime(RuntimeError::Cancelled))
    ));
    let clone = CancellationToken::new();
    let shared = clone.clone();
    shared.cancel();
    assert!(clone.is_canceled());
}

#[test]
fn first_audio_track_skips_video_tracks() {
    let tb = TimeBase::from_hz(90_000).unwrap();
    let video = TrackInfo::new(
        TrackId::new(1),
        tb,
        None,
        None,
        TrackFormat::Video(VideoTrackFormat::new(VideoCodecId::H264, 640, 480, Vec::new())),
    );
    let audio = TrackInfo::new(
        TrackId::new(2),
        tb,
        None,
        None,
        TrackFormat::Audio(AudioTrackFormat::new(AudioCodecId::Aac, 48_000, 2, Vec::new())),
    );
    assert_eq!(first_audio_track(&[video.clone(), audio.clone()]), Some(1));
    assert_eq!(first_audio_track(&[audio]), Some(0));
    assert_eq!(first_audio_track(&[video]), None);
    assert_eq!(first_audio_track(&[]), None);
}

#[test]
fn worker_reports_preparation_and_plays_to_completion() {
    let mut worker = worker(2_000);
    assert!(matches!(worker.prepared(None), WorkerEvent::PreparationCompleted { epoch } if epoch == PlaybackEpoch::initial()));
    assert!(!worker.is_running());
    assert!(!worker.wants_step());
    assert!(worker.on_command(PlaybackWorkerAction::Start, PlaybackEpoch::initial()).is_none());
    assert!(worker.is_running());
    let mut steps = 0;
    while worker.wants_step() {
        steps += 1;
        assert!(steps < 1_000);
        let outcome = worker.step_once();
        assert!(outcome.failure.is_none());
    }
    // The simulated device plays in real time: 2000 frames at 8 kHz take a quarter second.
    let mut completed = None;
    let began = std::time::Instant::now();
    while began.elapsed() < std::time::Duration::from_secs(3) {
        if let Some(event) = worker.on_poll() {
            completed = Some(event);
            break;
        }
    }
    assert!(matches!(completed, Some(WorkerEvent::PlaybackCompleted { .. })));
    assert!(!worker.is_running());
    // Completion is reported once per generation.
    assert!(worker.on_poll().is_none());
    // Start after completion does nothing.
    assert!(worker.on_command(PlaybackWorkerAction::Start, PlaybackEpoch::initial()).is_none());
    assert!(!worker.is_running());
    // Progress is reported with the generation of the last command.
    assert!(matches!(worker.report_progress(), Some(WorkerEvent::AudioProgress { epoch, .. }) if epoch == PlaybackEpoch::initial()));
}

#[test]
fn worker_refuses_commands_of_another_generation_and_closes_the_session() {
    let mut worker = worker(100);
    let later = PlaybackEpoch::initial().next().unwrap();
    match worker.on_command(PlaybackWorkerAction::Start, later) {
        Some(WorkerEvent::Failed { epoch, error: PlaybackError::Runtime(RuntimeError::EpochMismatch { expected, actual }) }) => {
            assert_eq!(epoch, later);
            assert_eq!(expected, PlaybackEpoch::initial());
            assert_eq!(actual, later);
        }
        other => panic!("unexpected {other:?}"),
    }
    // Without a session every command fails and nothing is reported as progress.
    assert!(matches!(
        worker.apply_command(PlaybackWorkerAction::Pause, later),
        Err(PlaybackError::Runtime(RuntimeError::SessionFailed))
    ));
    assert!(worker.report_progress().is_none());
    let outcome = worker.step_once();
    assert!(outcome.wait && outcome.failure.is_none());
}

#[test]
fn seek_moves_the_worker_to_the_new_generation() {
    let mut worker = worker(16_000);
    let later = PlaybackEpoch::initial().next().unwrap();
    assert!(worker
        .on_command(PlaybackWorkerAction::Seek { target: MediaTime::from_nanoseconds(1_000_000_000) }, later)
        .is_none());
    // Now Start of the new generation is accepted.
    assert!(worker.on_command(PlaybackWorkerAction::Start, later).is_none());
    assert!(worker.is_running());
    assert!(worker.on_command(PlaybackWorkerAction::Pause, later).is_none());
    assert!(!worker.is_running());
}

#[test]
fn failed_preparation_is_reported_and_closes_the_session() {
    let mut worker: PlaybackWorker<WavDemuxer, PcmDecoder, SimulatedAudioOutput> =
        PlaybackWorker::new(None, PlaybackEpoch::initial());
    let event = worker.prepared(Some(PlaybackError::Runtime(RuntimeError::Cancelled)));
    assert!(matches!(event, WorkerEvent::Failed { error: PlaybackError::Runtime(RuntimeError::Cancelled), .. }));
}

#[test]
fn effect_plans() {
    let e0 = PlaybackEpoch::initial();
    let e1 = e0.next().unwrap();
    assert!(matches!(plan_effect(ControlEffect::BeginPrepare, e0, e0, false), Ok(EffectPlan::SpawnWorker)));
    assert!(matches!(
        plan_effect(ControlEffect::BeginPrepare, e0, e0, true),
        Err(PlaybackError::Runtime(RuntimeError::WorkerAlreadyExists))
    ));
    assert!(matches!(
        plan_effect(ControlEffect::StartPlayback, e0, e0, true),
        Ok(EffectPlan::SendToWorker(PlaybackWorkerAction::Start))
    ));
    assert!(matches!(
        plan_effect(ControlEffect::PausePlayback, e0, e0, false),
        Err(PlaybackError::Runtime(RuntimeError::WorkerNotPrepared))
    ));
    assert!(matches!(
        plan_effect(ControlEffect::Seek(MediaTime::from_nanoseconds(9)), e1, e1, true),
        Ok(EffectPlan::SendToWorker(PlaybackWorkerAction::Seek { target })) if target.nanoseconds() == 9
    ));
    assert!(matches!(plan_effect(ControlEffect::Stop, e0, e0, false), Ok(EffectPlan::ShutdownWorker)));
    assert!(matches!(plan_effect(ControlEffect::Release, e0, e0, true), Ok(EffectPlan::ShutdownWorker)));
    assert!(matches!(plan_effect(ControlEffect::CleanupAfterFailure, e0, e0, true), Ok(EffectPlan::ShutdownWorker)));
    assert!(matches!(plan_effect(ControlEffect::NoEffect, e0, e0, true), Ok(EffectPlan::Nothing)));
    match plan_effect(ControlEffect::StartPlayback, e0, e1, true) {
        Err(PlaybackError::Runtime(RuntimeError::EpochMismatch { expected, actual })) => {
            assert_eq!(expected, e0);
            assert_eq!(actual, e1);
        }
        other => panic!("unexpected {other:?}"),
    }
}

#[test]
fn effect_loop_decisions() {
    let rejected = ControlError::CommandRejected {
        command: PlayerCommand::Play,
        transition: InvalidTransition::new(PlayerState::Idle, StateAction::Play),
    };
    assert!(matches!(
        on_control_error(rejected),
        ControlErrorAction::Report(PlayerEvent::CommandRejected { command: PlayerCommand::Play, state: PlayerState::Idle })
    ));
    let overflow = ControlError::Epoch(moonegg_core::pipeline::EpochError::Overflow);
    assert!(matches!(
        on_control_error(overflow),
        ControlErrorAction::Exit(EffectLoopExit::ControlFailed(ControlError::Epoch(_)))
    ));

    let e0 = PlaybackEpoch::initial();
    assert!(matches!(on_effect_result(&ControlEffect::StartPlayback, e0, Ok(()), false), EffectOutcomeAction::Continue));
    assert!(matches!(on_effect_result(&ControlEffect::Release, e0, Ok(()), false), EffectOutcomeAction::Exit(EffectLoopExit::Released)));
    assert!(matches!(on_effect_result(&ControlEffect::Release, e0, Ok(()), true), EffectOutcomeAction::Exit(EffectLoopExit::EventsDisconnected)));
    assert!(matches!(
        on_effect_result(&ControlEffect::CleanupAfterFailure, e0, Err(PlaybackError::Runtime(RuntimeError::WorkerPanicked)), false),
        EffectOutcomeAction::Exit(EffectLoopExit::TerminalEffectFailed(PlaybackError::Runtime(RuntimeError::WorkerPanicked)))
    ));
    assert!(matches!(
        on_effect_result(&ControlEffect::BeginPrepare, e0, Err(PlaybackError::Runtime(RuntimeError::WorkerAlreadyExists)), false),
        EffectOutcomeAction::ReportFailure(WorkerEvent::Failed { epoch, .. }) if epoch == e0
    ));
    assert!(matches!(after_failure_report(false, false), Some(EffectLoopExit::FeedbackDisconnected)));
    assert!(matches!(after_failure_report(true, true), Some(EffectLoopExit::EventsDisconnected)));
    assert!(after_failure_report(true, false).is_none());
    assert!(matches!(after_event_only(true), Some(EffectLoopExit::EventsDisconnected)));
    assert!(after_event_only(false).is_none());
}

#[test]
fn joins_report_the_first_failure() {
    assert_eq!(first_join_error(&[]), Ok(()));
    assert_eq!(first_join_error(&[Ok(()), Ok(())]), Ok(()));
    assert_eq!(first_join_error(&[Ok(()), Err(WorkerJoinError::Panicked), Ok(())]), Err(WorkerJoinError::Panicked));
}

#[test]
fn shutdown_is_clean_only_after_a_release_of_both_threads() {
    let clean = ShutdownReport {
        release_sent: true,
        control: ThreadTermination::Exited(ControlLoopExit::Released),
        effect: ThreadTermination::Exited(EffectLoopExit::Released),
    };
    assert!(clean.is_clean());
    let unsent = ShutdownReport {
        release_sent: false,
        control: ThreadTermination::Exited(ControlLoopExit::Released),
        effect: ThreadTermination::Exited(EffectLoopExit::Released),
    };
    assert!(!unsent.is_clean());
    let panicked = ShutdownReport {
        release_sent: true,
        control: ThreadTermination::Panicked,
        effect: ThreadTermination::Exited(EffectLoopExit::Released),
    };
    assert!(!panicked.is_clean());
    let disconnected = ShutdownReport {
        release_sent: true,
        control: ThreadTermination::Exited(ControlLoopExit::InputDisconnected),
        effect: ThreadTermination::Exited(EffectLoopExit::ResultsDisconnected),
    };
    assert!(!disconnected.is_clean());
}

#[test]
fn stale_worker_events_are_recognized() {
    let e0 = PlaybackEpoch::initial();
    let e1 = e0.next().unwrap();
    let event = WorkerEvent::AudioProgress { epoch: e0, media_time: MediaTime::from_nanoseconds(1) };
    assert!(event.is_current(e0));
    assert!(!event.is_current(e1));
    assert_eq!(event.epoch(), e0);
}

#[test]
fn seek_to_a_generation_that_is_not_later_is_refused() {
    let mut worker = worker(100);
    match worker.apply_command(
        PlaybackWorkerAction::Seek { target: MediaTime::from_nanoseconds(0) },
        PlaybackEpoch::initial(),
    ) {
        Err(PlaybackError::Pipeline(PlaybackPipelineError::InvalidSeekEpoch { current, requested })) => {
            assert_eq!(current, PlaybackEpoch::initial());
            assert_eq!(requested, PlaybackEpoch::initial());
        }
        other => panic!("unexpected {other:?}"),
    }
}

#[test]
fn a_turn_applies_the_command_reports_and_decides_the_step() {
    let mut worker = worker(2_000);
    worker.prepared(None);
    // Nothing asked, nothing due: no report, no step before a start.
    let idle = worker.on_tick(None, false);
    assert!(idle.reports.is_empty());
    assert!(!idle.step);
    // A start with progress due: one progress report, then a step.
    let started = worker.on_tick(Some((PlaybackWorkerAction::Start, PlaybackEpoch::initial())), true);
    assert_eq!(started.reports.len(), 1);
    assert!(matches!(started.reports[0], WorkerEvent::AudioProgress { epoch, .. } if epoch == PlaybackEpoch::initial()));
    assert!(started.step);
    // A command of another generation fails alone and ends the turn.
    let later = PlaybackEpoch::initial().next().unwrap();
    let refused = worker.on_tick(Some((PlaybackWorkerAction::Pause, later)), true);
    assert_eq!(refused.reports.len(), 1);
    assert!(matches!(refused.reports[0], WorkerEvent::Failed { epoch, .. } if epoch == later));
    assert!(!refused.step);
}

#[test]
fn a_step_result_decides_waiting_and_reports() {
    let mut worker = worker(100);
    let go_on = worker.on_step_result(Ok(PlaybackStepResult::Progress));
    assert!(!go_on.wait && go_on.failure.is_none());
    let blocked = worker.on_step_result(Ok(PlaybackStepResult::Blocked));
    assert!(blocked.wait && blocked.failure.is_none());
    assert!(worker.on_command(PlaybackWorkerAction::Start, PlaybackEpoch::initial()).is_none());
    assert!(worker.wants_step());
    let drained = worker.on_step_result(Ok(PlaybackStepResult::DecoderDrained));
    assert!(drained.wait && drained.failure.is_none());
    assert!(!worker.wants_step());
    let failed = worker.on_step_result(Err(PlaybackPipelineError::NoAudioTrack));
    assert!(failed.wait);
    match failed.failure {
        Some(WorkerEvent::Failed { epoch, error: PlaybackError::Pipeline(PlaybackPipelineError::NoAudioTrack) }) => {
            assert_eq!(epoch, PlaybackEpoch::initial())
        }
        other => panic!("unexpected {other:?}"),
    }
    assert!(!worker.is_running());
}

#[test]
fn the_progress_timer_restarts_only_when_progress_was_checked() {
    let mut worker = worker(100);
    worker.prepared(None);
    assert!(worker.on_tick(None, true).progress_checked);
    assert!(!worker.on_tick(None, false).progress_checked);
    let later = PlaybackEpoch::initial().next().unwrap();
    let refused = worker.on_tick(Some((PlaybackWorkerAction::Start, later)), true);
    assert!(!refused.progress_checked);
    assert!(!refused.step);
}

#[test]
fn a_turn_applies_start_pause_and_seek() {
    let mut worker = worker(16_000);
    worker.prepared(None);
    let start = PlaybackEpoch::initial();
    assert!(worker.on_tick(Some((PlaybackWorkerAction::Start, start)), false).step);
    assert!(worker.is_running());
    let paused = worker.on_tick(Some((PlaybackWorkerAction::Pause, start)), false);
    assert!(paused.reports.is_empty() && !paused.step);
    assert!(!worker.is_running());
    let later = start.next().unwrap();
    let seeking = worker.on_tick(
        Some((PlaybackWorkerAction::Seek { target: MediaTime::from_nanoseconds(250_000_000) }, later)),
        true,
    );
    match &seeking.reports[..] {
        [WorkerEvent::AudioProgress { epoch, media_time }] => {
            assert_eq!(*epoch, later);
            assert_eq!(media_time.nanoseconds(), 250_000_000);
        }
        other => panic!("unexpected {other:?}"),
    }
}
