use camwatch::debounce::{Channel, DebounceController, DebounceWindow};
use camwatch::recording::{
    RecordingAction, RecordingController, RecordingState, ThroughputMeter, WriterParams,
};
use camwatch::session::{IngestSession, SessionConfig};

fn push_all(w: &mut DebounceWindow, values: &[bool]) -> Vec<bool> {
    let mut seen = Vec::new();
    for &v in values {
        w.push(v);
        seen.push(w.triggered());
    }
    seen
}

#[test]
fn window_triggers_only_after_capacity_trues() {
    let mut w = DebounceWindow::new(5);
    assert_eq!(w.capacity(), 5);
    assert!(!w.triggered());
    let seen = push_all(&mut w, &[true, true, true, true, true, true]);
    assert_eq!(seen, vec![false, false, false, false, true, true]);
}

#[test]
fn window_false_breaks_and_wraps() {
    let mut w = DebounceWindow::new(5);
    let seen = push_all(
        &mut w,
        &[true, true, true, true, false, true, true, true, true, true, true],
    );
    assert_eq!(
        seen,
        vec![false, false, false, false, false, false, false, false, false, true, true]
    );
}

#[test]
fn window_of_one_follows_last_value() {
    let mut w = DebounceWindow::new(1);
    let seen = push_all(&mut w, &[true, false, true, true]);
    assert_eq!(seen, vec![true, false, true, true]);
}

#[test]
fn window_reset_needs_full_run_again() {
    let mut w = DebounceWindow::new(3);
    push_all(&mut w, &[true, true, true]);
    assert!(w.triggered());
    w.reset();
    assert!(!w.triggered());
    assert_eq!(w.capacity(), 3);
    let seen = push_all(&mut w, &[true, true, true]);
    assert_eq!(seen, vec![false, false, true]);
}

#[test]
fn controller_is_or_of_channels() {
    let mut d = DebounceController::new(2);
    d.record(Channel::FullBody, true);
    d.record(Channel::Face, true);
    assert!(!d.triggered());
    d.record(Channel::FullBody, false);
    d.record(Channel::Face, true);
    assert!(d.triggered());
    d.record(Channel::Face, false);
    assert!(!d.triggered());
    d.record(Channel::FullBody, true);
    d.record(Channel::FullBody, true);
    assert!(d.triggered());
    d.reset();
    assert!(!d.triggered());
}

#[test]
fn meter_samples_every_interval() {
    let mut m = ThroughputMeter::new(5, 10, 0);
    for t in 1..=40u64 {
        m.tick(t * 100);
    }
    assert_eq!(m.frame_count, 40);
    assert_eq!(m.fps_current, 10);
    m.tick(5000);
    assert_eq!(m.fps_current, 8);
    assert_eq!(m.fps_previous, 10);
    assert_eq!(m.frame_count, 0);
    assert_eq!(m.window_start_ms, 5000);
    m.tick(9999);
    assert_eq!(m.frame_count, 1);
    assert_eq!(m.fps_current, 8);
}

#[test]
fn controller_table() {
    let p = WriterParams { width: 4, height: 3, fps_current: 10, fps_previous: 12 };
    let mut c = RecordingController::new(5000, 5000, 0);
    assert_eq!(c.on_frame(false, p, 100), RecordingAction::Nothing);
    assert_eq!(c.on_frame(true, p, 200), RecordingAction::OpenWriter(p));
    assert_eq!(c.state, RecordingState::ArmedIdle);
    c.on_writer_opened(250);
    assert_eq!(c.state, RecordingState::Recording);
    assert_eq!(c.mark_ms, 250);
    assert_eq!(c.on_frame(true, p, 300), RecordingAction::WriteFrame);
    c.on_frame_written(300);
    assert_eq!(c.mark_ms, 300);
    assert_eq!(c.on_frame(false, p, 5299), RecordingAction::Nothing);
    assert_eq!(c.on_frame(false, p, 5300), RecordingAction::CloseWriter);
    assert_eq!(c.state, RecordingState::DisarmedCooldown);
    assert_eq!(c.mark_ms, 5300);
    c.on_writer_opened(5301);
    assert_eq!(c.mark_ms, 5300);
    assert_eq!(c.state, RecordingState::DisarmedCooldown);
    assert_eq!(c.on_frame(true, p, 10299), RecordingAction::Nothing);
    assert_eq!(c.on_frame(true, p, 10300), RecordingAction::Rearm);
    assert_eq!(c.state, RecordingState::ArmedIdle);
}

fn standard_session() -> IngestSession {
    IngestSession::new(SessionConfig::standard(), 0)
}

#[test]
fn standard_config_values() {
    let c = SessionConfig::standard();
    assert_eq!(c.debounce_window_size, 5);
    assert_eq!(c.stop_interval_ms, 5000);
    assert_eq!(c.rearm_interval_ms, 5000);
    assert_eq!(c.sample_interval_secs, 5);
    assert_eq!(c.initial_fps, 10);
}

#[test]
fn five_fullbody_frames_open_a_writer_of_frame_size() {
    let mut s = standard_session();
    for t in 1..5u64 {
        s.begin_frame(t * 100);
        assert_eq!(s.on_detections(true, false, 640, 480, t * 100), RecordingAction::Nothing);
    }
    s.begin_frame(500);
    let a = s.on_detections(true, false, 640, 480, 500);
    assert_eq!(
        a,
        RecordingAction::OpenWriter(WriterParams {
            width: 640,
            height: 480,
            fps_current: 10,
            fps_previous: 10
        })
    );
    assert!(s.triggered());
    assert_eq!(s.state(), RecordingState::ArmedIdle);
    s.on_writer_opened(500);
    assert_eq!(s.state(), RecordingState::Recording);
    assert_eq!(s.on_detections(true, false, 640, 480, 600), RecordingAction::WriteFrame);
}

#[test]
fn failed_open_stays_armed_and_retries() {
    let mut s = standard_session();
    for t in 1..=5u64 {
        s.on_detections(false, true, 8, 8, t);
    }
    assert_eq!(s.state(), RecordingState::ArmedIdle);
    let a = s.on_detections(false, true, 8, 8, 6);
    assert!(matches!(a, RecordingAction::OpenWriter(_)));
    s.on_writer_opened(6);
    assert_eq!(s.state(), RecordingState::Recording);
}

#[test]
fn opened_report_without_request_changes_nothing() {
    let mut s = standard_session();
    s.on_writer_opened(1);
    assert_eq!(s.state(), RecordingState::ArmedIdle);
    for t in 1..=5u64 {
        s.on_detections(true, false, 8, 8, t);
    }
    s.on_detections(false, false, 8, 8, 6);
    s.on_writer_opened(6);
    assert_eq!(s.state(), RecordingState::ArmedIdle);
}

fn recording_session_written_at(t: u64) -> IngestSession {
    let mut s = standard_session();
    for k in 1..=5u64 {
        s.on_detections(true, false, 8, 8, k);
    }
    s.on_writer_opened(5);
    assert_eq!(s.on_detections(true, false, 8, 8, t), RecordingAction::WriteFrame);
    s.on_frame_written(t);
    s
}

#[test]
fn quiet_frames_stop_recording_after_interval() {
    let mut s = recording_session_written_at(1000);
    let mut t = 1000;
    while t < 5900 {
        t += 100;
        assert_eq!(s.on_detections(false, false, 8, 8, t), RecordingAction::Nothing);
        assert_eq!(s.state(), RecordingState::Recording);
    }
    assert_eq!(s.on_detections(false, false, 8, 8, 6000), RecordingAction::CloseWriter);
    assert_eq!(s.state(), RecordingState::DisarmedCooldown);
    assert!(!s.triggered());
    for k in 1..=10u64 {
        let a = s.on_detections(true, true, 8, 8, 6000 + k * 100);
        assert_ne!(a, RecordingAction::WriteFrame);
        assert!(!matches!(a, RecordingAction::OpenWriter(_)));
    }
}

#[test]
fn failed_writes_do_not_refresh_the_stop_clock() {
    let mut s = recording_session_written_at(1000);
    assert_eq!(s.on_detections(true, false, 8, 8, 3000), RecordingAction::WriteFrame);
    assert_eq!(s.on_detections(false, false, 8, 8, 6000), RecordingAction::CloseWriter);
}

#[test]
fn stop_clears_both_windows() {
    let mut s = recording_session_written_at(0);
    for k in 1..=5u64 {
        s.on_detections(false, true, 8, 8, k);
    }
    for k in 6..=9u64 {
        s.on_detections(false, false, 8, 8, k);
    }
    assert_eq!(s.on_detections(false, false, 8, 8, 6000), RecordingAction::CloseWriter);
    for k in 1..=4u64 {
        s.on_detections(true, true, 8, 8, 6000 + k);
        assert!(!s.triggered());
    }
    s.on_detections(true, true, 8, 8, 6005);
    assert!(s.triggered());
}

#[test]
fn cooldown_rearms_without_detection_then_starts_again() {
    let mut s = recording_session_written_at(0);
    assert_eq!(s.on_detections(false, false, 8, 8, 5000), RecordingAction::CloseWriter);
    assert_eq!(s.on_detections(false, false, 8, 8, 9999), RecordingAction::Nothing);
    assert_eq!(s.state(), RecordingState::DisarmedCooldown);
    assert_eq!(s.on_detections(false, false, 8, 8, 10000), RecordingAction::Rearm);
    assert_eq!(s.state(), RecordingState::ArmedIdle);
    for k in 1..5u64 {
        assert_eq!(s.on_detections(true, false, 8, 8, 10000 + k), RecordingAction::Nothing);
    }
    assert!(matches!(
        s.on_detections(true, false, 8, 8, 10005),
        RecordingAction::OpenWriter(_)
    ));
}

#[test]
fn cooldown_with_sustained_detection_rearms_before_recording() {
    let mut s = recording_session_written_at(0);
    assert_eq!(s.on_detections(false, false, 8, 8, 5000), RecordingAction::CloseWriter);
    for k in 1..=5u64 {
        s.on_detections(true, false, 8, 8, 5000 + k);
    }
    assert!(s.triggered());
    assert_eq!(s.on_detections(true, false, 8, 8, 10000), RecordingAction::Rearm);
    assert_eq!(s.state(), RecordingState::ArmedIdle);
    assert!(matches!(
        s.on_detections(true, false, 8, 8, 10001),
        RecordingAction::OpenWriter(_)
    ));
}

#[test]
fn stop_interval_counts_from_opening_before_first_write() {
    let mut s = standard_session();
    for t in 5000..5004u64 {
        assert_eq!(s.on_detections(true, false, 8, 8, t), RecordingAction::Nothing);
    }
    assert!(matches!(
        s.on_detections(true, false, 8, 8, 5004),
        RecordingAction::OpenWriter(_)
    ));
    s.on_writer_opened(5004);
    assert_eq!(s.state(), RecordingState::Recording);
    assert_eq!(s.on_detections(false, false, 8, 8, 5005), RecordingAction::Nothing);
    assert_eq!(s.state(), RecordingState::Recording);
    assert_eq!(s.on_detections(false, false, 8, 8, 10003), RecordingAction::Nothing);
    assert_eq!(s.state(), RecordingState::Recording);
    assert_eq!(s.on_detections(false, false, 8, 8, 10004), RecordingAction::CloseWriter);
    assert_eq!(s.state(), RecordingState::DisarmedCooldown);
}
