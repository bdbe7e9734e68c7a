use moonegg_core::source::{SourceRangeError, SourceWindow, WindowSeek};

#[test]
fn window_must_fit_in_the_input() {
    let window = SourceWindow::new(10, 20, 30).unwrap();
    assert_eq!(window.start(), 10);
    assert_eq!(window.length(), 20);
    assert_eq!(window.position(), 0);
    assert_eq!(window.absolute_position(), 10);
    assert_eq!(SourceWindow::new(10, 21, 30).unwrap_err(), SourceRangeError::RangeExceedsInput);
    assert_eq!(SourceWindow::new(u64::MAX, 1, u64::MAX).unwrap_err(), SourceRangeError::RangeOverflow);
    assert!(SourceWindow::new(0, 0, 0).is_ok());
}

#[test]
fn seeks_stay_inside_the_window() {
    let mut window = SourceWindow::new(100, 50, 1_000).unwrap();
    assert_eq!(window.seek(WindowSeek::Start(20)), Ok(20));
    assert_eq!(window.absolute_position(), 120);
    assert_eq!(window.seek(WindowSeek::Current(-5)), Ok(15));
    assert_eq!(window.seek(WindowSeek::End(-10)), Ok(40));
    assert_eq!(window.seek(WindowSeek::End(0)), Ok(50));
    assert_eq!(window.seek(WindowSeek::End(1)), Err(SourceRangeError::SeekOutsideRange));
    assert_eq!(window.position(), 50);
    assert_eq!(window.seek(WindowSeek::Current(-51)), Err(SourceRangeError::SeekOutsideRange));
    assert_eq!(window.seek(WindowSeek::Start(51)), Err(SourceRangeError::SeekOutsideRange));
    assert_eq!(window.seek(WindowSeek::Current(i64::MIN)), Err(SourceRangeError::SeekOutsideRange));
}

#[test]
fn reads_are_limited_to_what_is_left() {
    let mut window = SourceWindow::new(0, 10, 10).unwrap();
    assert_eq!(window.read_len(4), 4);
    window.advance(4);
    assert_eq!(window.position(), 4);
    assert_eq!(window.read_len(100), 6);
    window.advance(6);
    assert_eq!(window.read_len(100), 0);
    assert_eq!(window.read_len(0), 0);
}
