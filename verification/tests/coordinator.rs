use moonegg_core::media::{DecodedFrame, MediaDelta, MediaTime, TrackId};
use moonegg_core::pipeline::{coordinate_video_frame, CoordinateVideoError, VideoStepResult};
use moonegg_core::ports::{VideoOutput, VideoOutputError, VideoSubmitResult};
use moonegg_core::timing::{AvSync, AvSyncError, ClockSnapshot, MonotonicInstant};

#[derive(Default)]
struct Screen {
    full: bool,
    shown: Vec<u32>,
    discarded: Vec<u32>,
}

impl VideoOutput for Screen {
    type FramePayload = u32;

    fn present(&mut self, frame: DecodedFrame<u32>) -> Result<VideoSubmitResult<u32>, VideoOutputError> {
        if self.full {
            return Ok(VideoSubmitResult::Backpressure(frame));
        }
        self.shown.push(*frame.payload());
        Ok(VideoSubmitResult::Accepted)
    }

    fn discard(&mut self, frame: DecodedFrame<u32>) -> Result<(), VideoOutputError> {
        self.discarded.push(*frame.payload());
        Ok(())
    }

    fn flush(&mut self) -> Result<(), VideoOutputError> {
        Ok(())
    }
}

fn frame(pts_ns: i64, id: u32) -> DecodedFrame<u32> {
    DecodedFrame::new(TrackId::new(1), MediaTime::from_nanoseconds(pts_ns), id)
}

#[test]
fn early_frames_wait_timely_frames_show_and_late_frames_go() {
    let sync = AvSync::new(MediaDelta::from_nanoseconds(5_000_000), MediaDelta::from_nanoseconds(20_000_000)).unwrap();
    let snapshot = ClockSnapshot::new(MediaTime::from_nanoseconds(0), MonotonicInstant::from_nanos(0));
    let now = MonotonicInstant::from_nanos(100_000_000);
    let mut screen = Screen::default();

    match coordinate_video_frame(&sync, &mut screen, frame(200_000_000, 1), snapshot, now).unwrap() {
        VideoStepResult::WaitUtil { deadline, frame } => {
            assert_eq!(deadline.nanos(), 195_000_000);
            assert_eq!(*frame.payload(), 1);
        }
        _ => panic!("expected the frame to wait"),
    }
    assert!(matches!(
        coordinate_video_frame(&sync, &mut screen, frame(100_000_000, 2), snapshot, now).unwrap(),
        VideoStepResult::Submitted
    ));
    assert!(matches!(
        coordinate_video_frame(&sync, &mut screen, frame(50_000_000, 3), snapshot, now).unwrap(),
        VideoStepResult::Discarded
    ));
    assert_eq!(screen.shown, vec![2]);
    assert_eq!(screen.discarded, vec![3]);

    screen.full = true;
    match coordinate_video_frame(&sync, &mut screen, frame(99_000_000, 4), snapshot, now).unwrap() {
        VideoStepResult::Backpressure(back) => assert_eq!(*back.payload(), 4),
        _ => panic!("expected the frame back"),
    }
    assert!(matches!(
        coordinate_video_frame(&sync, &mut screen, frame(0, 5), snapshot, MonotonicInstant::from_nanos(0)).map(|_| ()),
        Ok(())
    ));
    let earlier_now = coordinate_video_frame(
        &sync,
        &mut screen,
        frame(0, 6),
        ClockSnapshot::new(MediaTime::from_nanoseconds(0), MonotonicInstant::from_nanos(10)),
        MonotonicInstant::from_nanos(5),
    );
    assert!(matches!(earlier_now, Err(CoordinateVideoError::Sync(AvSyncError::ObservationFromFuture))));
}
