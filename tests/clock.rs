use media_example::clock::ExampleMediaPlayer;
use media_example::events::InputEvent;

#[test]
fn target_after_start_is_anchor_plus_ticks() {
    let p = ExampleMediaPlayer::starting_at(5_000);
    assert_eq!(p.playback_start_ticks, 0);
    // 90 kHz ticks: 90_000 ticks is one second
    assert_eq!(p.target_presentation_time(90_000, 90_000), 5_000 + 1_000_000_000);
    assert_eq!(p.target_presentation_time(3, 1_000), 5_000 + 3_000_000);
    assert_eq!(p.target_presentation_time(0, 1_000), 5_000);
}

#[test]
fn target_after_resync_is_anchor_time() {
    let mut p = ExampleMediaPlayer::starting_at(0);
    p.resync_at(700, 123_456);
    assert_eq!(p.target_presentation_time(700, 1_000), 123_456);
    assert_eq!(p.target_presentation_time(701, 1_000), 123_456 + 1_000_000);
    assert_eq!(p.target_presentation_time(699, 1_000), 123_456 - 1_000_000);
}

#[test]
fn conversion_truncates_towards_zero() {
    let p = ExampleMediaPlayer::starting_at(1_000);
    assert_eq!(p.target_presentation_time(1, 3), 1_000 + 333_333_333);
    assert_eq!(p.target_presentation_time(-1, 3), 1_000 - 333_333_333);
}

#[test]
fn extreme_ticks_do_not_overflow() {
    let p = ExampleMediaPlayer { playback_start_ticks: i64::MIN, playback_start_wallclock_time: u64::MAX };
    let t = p.target_presentation_time(i64::MAX, 1);
    assert_eq!(t, u64::MAX as i128 + (u64::MAX as i128) * 1_000_000_000);
}

#[test]
fn time_until_is_zero_for_late_frames() {
    let p = ExampleMediaPlayer::starting_at(1_000_000);
    assert_eq!(p.time_until(0, 1_000, 2_000_000), 0);
    assert_eq!(p.time_until(2, 1_000, 2_000_000), 1_000_000);
    assert_eq!(p.time_until(i64::MAX, 1, 0), u64::MAX);
}

#[test]
fn clock_reads_the_time() {
    let p = ExampleMediaPlayer::new();
    assert_eq!(p.playback_start_ticks, 0);
    assert!(p.playback_start_wallclock_time > 0);
    let mut q = ExampleMediaPlayer::starting_at(0);
    q.resync(42);
    assert_eq!(q.playback_start_ticks, 42);
    assert!(q.playback_start_wallclock_time > 0);
}

#[test]
fn quit_and_escape_end_playback() {
    let mut p = ExampleMediaPlayer::starting_at(10);
    assert!(!p.handle_events(&vec![InputEvent::Other, InputEvent::Quit], Some(5), 99));
    assert!(!p.handle_events(&vec![InputEvent::KeyDown { is_escape: true }], None, 99));
    assert!(p.handle_events(&vec![InputEvent::KeyDown { is_escape: false }], None, 99));
    assert!(p.handle_events(&vec![], None, 99));
    assert_eq!(p, ExampleMediaPlayer::starting_at(10));
}

#[test]
fn resize_resyncs_to_last_frame() {
    let mut p = ExampleMediaPlayer::starting_at(10);
    assert!(p.handle_events(&vec![InputEvent::WindowResized, InputEvent::Other], Some(300), 99));
    assert_eq!(p.playback_start_ticks, 300);
    assert_eq!(p.playback_start_wallclock_time, 99);
}

#[test]
fn resize_without_presented_frame_keeps_anchor() {
    let mut p = ExampleMediaPlayer::starting_at(10);
    assert!(p.handle_events(&vec![InputEvent::WindowResized], None, 99));
    assert_eq!(p, ExampleMediaPlayer::starting_at(10));
}

#[test]
fn events_after_quit_are_not_handled() {
    let mut p = ExampleMediaPlayer::starting_at(10);
    assert!(!p.handle_events(&vec![InputEvent::Quit, InputEvent::WindowResized], Some(300), 99));
    assert_eq!(p, ExampleMediaPlayer::starting_at(10));
    assert!(!p.handle_events(&vec![InputEvent::WindowResized, InputEvent::Quit], Some(300), 99));
    assert_eq!(p.playback_start_ticks, 300);
}

#[test]
fn poll_events_resyncs_on_resize() {
    let mut p = ExampleMediaPlayer::starting_at(0);
    assert!(p.poll_events(&vec![InputEvent::WindowResized], Some(8)));
    assert_eq!(p.playback_start_ticks, 8);
    assert!(p.playback_start_wallclock_time > 0);
    assert!(!p.poll_events(&vec![InputEvent::Quit], Some(9)));
    assert_eq!(p.playback_start_ticks, 8);
}
