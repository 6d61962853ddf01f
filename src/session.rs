use vstd::prelude::*;

use crate::debounce::{sustained, Channel, DebounceController};
use crate::recording::{
    elapsed, RecordingAction, RecordingController, RecordingState, ThroughputMeter, WriterParams,
};

verus! {

/// The tunable thresholds of an ingest session.
#[derive(Clone, Copy, Debug, PartialEq, Eq, Structural)]
pub struct SessionConfig {
    /// Consecutive detections on one channel needed to trigger.
    pub debounce_window_size: usize,
    /// Quiet time after the last written frame before a recording stops.
    pub stop_interval_ms: u64,
    /// Quiet time after a recording stops before a new one may start.
    pub rearm_interval_ms: u64,
    /// Length of a throughput sampling window.
    pub sample_interval_secs: u64,
    /// Rate assumed before the first sampling window ends.
    pub initial_fps: u64,
}

impl SessionConfig {
    /// Windows of five frames, five seconds to stop, five to re-arm, throughput
    /// sampled every five seconds from an assumed ten frames per second.
    pub fn standard() -> (c: SessionConfig)
        ensures
            c == (SessionConfig {
                debounce_window_size: 5,
                stop_interval_ms: 5000,
                rearm_interval_ms: 5000,
                sample_interval_secs: 5,
                initial_fps: 10,
            }),
    {
        SessionConfig {
            debounce_window_size: 5,
            stop_interval_ms: 5000,
            rearm_interval_ms: 5000,
            sample_interval_secs: 5,
            initial_fps: 10,
        }
    }

    pub open spec fn valid(self) -> bool {
        self.debounce_window_size > 0 && self.sample_interval_secs > 0
    }
}

/// The detection and recording state of one ingest connection.
///
/// The caller owns the video writer: it performs the action that
/// `on_detections` returns and reports back what succeeded.
pub struct IngestSession {
    debounce: DebounceController,
    recorder: RecordingController,
    meter: ThroughputMeter,
    open_requested: bool,
}

impl IngestSession {
    pub closed spec fn debounce(&self) -> DebounceController {
        self.debounce
    }

    pub closed spec fn recorder(&self) -> RecordingController {
        self.recorder
    }

    pub closed spec fn meter(&self) -> ThroughputMeter {
        self.meter
    }

    /// A writer was asked for by the last decoded frame and not yet reported open.
    pub closed spec fn open_requested(&self) -> bool {
        self.open_requested
    }

    /// Whether detection is sustained once `fullbody` and `face` are recorded.
    pub open spec fn triggered_after(&self, fullbody: bool, face: bool) -> bool {
        let cap = self.debounce().cap();
        sustained(self.debounce().history(Channel::FullBody).push(fullbody), cap) || sustained(
            self.debounce().history(Channel::Face).push(face),
            cap,
        )
    }

    /// The writer a frame of `width` by `height` would ask for now.
    pub open spec fn params_for(&self, width: u32, height: u32) -> WriterParams {
        WriterParams {
            width,
            height,
            fps_current: self.meter().fps_current,
            fps_previous: self.meter().fps_previous,
        }
    }

    pub closed spec fn wf(&self) -> bool {
        &&& self.debounce.wf()
        &&& self.meter.sample_interval_secs > 0
        &&& self.open_requested ==> self.recorder.state == RecordingState::ArmedIdle
            && self.debounce.is_triggered()
    }

    /// A fresh, armed session whose clocks start at `now_ms`.
    pub fn new(config: SessionConfig, now_ms: u64) -> (s: IngestSession)
        requires
            config.valid(),
        ensures
            s.wf(),
            s.debounce().cap() == config.debounce_window_size,
            s.debounce().is_cleared(),
            s.recorder() == (RecordingController {
                state: RecordingState::ArmedIdle,
                mark_ms: now_ms,
                stop_interval_ms: config.stop_interval_ms,
                rearm_interval_ms: config.rearm_interval_ms,
            }),
            s.meter() == (ThroughputMeter {
                window_start_ms: now_ms,
                frame_count: 0,
                fps_current: config.initial_fps,
                fps_previous: config.initial_fps,
                sample_interval_secs: config.sample_interval_secs,
            }),
            !s.open_requested(),
    {
        IngestSession {
            debounce: DebounceController::new(config.debounce_window_size),
            recorder: RecordingController::new(
                config.stop_interval_ms,
                config.rearm_interval_ms,
                now_ms,
            ),
            meter: ThroughputMeter::new(config.sample_interval_secs, config.initial_fps, now_ms),
            open_requested: false,
        }
    }

    /// Counts a frame that is about to be read, for the throughput measure.
    pub fn begin_frame(&mut self, now_ms: u64)
        requires
            old(self).wf(),
        ensures
            final(self).wf(),
            final(self).meter() == old(self).meter().after_tick(now_ms),
            final(self).debounce() == old(self).debounce(),
            final(self).recorder() == old(self).recorder(),
            final(self).open_requested() == old(self).open_requested(),
    {
        self.meter.tick(now_ms);
    }

    /// Feeds the detection results of one decoded frame of `width` by `height`
    /// at `now_ms`, and returns what the writer's owner is to do.
    ///
    /// Both results go into their windows; the recording controller then steps
    /// on whether either window is all `true`. When it stops recording, both
    /// windows are cleared.
    pub fn on_detections(
        &mut self,
        fullbody: bool,
        face: bool,
        width: u32,
        height: u32,
        now_ms: u64,
    ) -> (a: RecordingAction)
        requires
            old(self).wf(),
        ensures
            final(self).wf(),
            final(self).meter() == old(self).meter(),
            final(self).debounce().cap() == old(self).debounce().cap(),
            (final(self).recorder(), a) == old(self).recorder().step(
                old(self).triggered_after(fullbody, face),
                old(self).params_for(width, height),
                now_ms,
            ),
            a == RecordingAction::CloseWriter ==> final(self).debounce().is_cleared(),
            a != RecordingAction::CloseWriter ==> final(self).debounce().history(Channel::FullBody)
                == old(self).debounce().history(Channel::FullBody).push(fullbody) && final(self).debounce().history(Channel::Face) == old(self).debounce().history(
                Channel::Face,
            ).push(face),
            final(self).open_requested() == (a is OpenWriter),
            // a stop comes only after the stop interval without a sustained
            // detection, counted from the last written frame or, before the
            // first write, from the opening of the writer
            old(self).recorder().state == RecordingState::Recording && final(self).recorder().state != RecordingState::Recording ==> !old(self).triggered_after(
                fullbody,
                face,
            ) && elapsed(old(self).recorder().mark_ms, now_ms) >= old(self).recorder().stop_interval_ms,
            // decoded frames never start a recording: only an opened writer does
            final(self).recorder().state == RecordingState::Recording ==> old(self).recorder().state
                == RecordingState::Recording,
            // entering cooldown clears both windows
            final(self).recorder().state == RecordingState::DisarmedCooldown && old(self).recorder().state != RecordingState::DisarmedCooldown ==> final(self).debounce().is_cleared() && final(self).recorder().mark_ms == now_ms,
            // cooldown ends exactly when the re-arm interval has passed, whatever
            // was detected
            old(self).recorder().state == RecordingState::DisarmedCooldown ==> (final(self).recorder().state == RecordingState::ArmedIdle <==> elapsed(
                old(self).recorder().mark_ms,
                now_ms,
            ) >= old(self).recorder().rearm_interval_ms),
            old(self).recorder().state == RecordingState::DisarmedCooldown ==> final(self).recorder().state != RecordingState::Recording,
    {
        self.debounce.record(Channel::FullBody, fullbody);
        self.debounce.record(Channel::Face, face);
        let triggered = self.debounce.triggered();
        let params = WriterParams {
            width,
            height,
            fps_current: self.meter.fps_current,
            fps_previous: self.meter.fps_previous,
        };
        let a = self.recorder.on_frame(triggered, params, now_ms);
        match a {
            RecordingAction::CloseWriter => {
                self.debounce.reset();
                self.open_requested = false;
            },
            RecordingAction::OpenWriter(_) => {
                self.open_requested = true;
            },
            _ => {
                self.open_requested = false;
            },
        }
        a
    }

    /// Reports that the writer asked for by the last decoded frame was opened at
    /// `now_ms`: the session starts recording, and the stop interval is counted
    /// from the opening until the first frame is written. Without such a
    /// request nothing changes.
    pub fn on_writer_opened(&mut self, now_ms: u64)
        requires
            old(self).wf(),
        ensures
            final(self).wf(),
            final(self).debounce() == old(self).debounce(),
            final(self).meter() == old(self).meter(),
            !final(self).open_requested(),
            old(self).open_requested() ==> final(self).recorder() == (RecordingController {
                state: RecordingState::Recording,
                mark_ms: now_ms,
                ..old(self).recorder()
            }),
            !old(self).open_requested() ==> final(self).recorder() == old(self).recorder(),
            // recording starts only from the armed state, on a sustained detection
            final(self).recorder().state == RecordingState::Recording && old(self).recorder().state
                != RecordingState::Recording ==> old(self).recorder().state
                == RecordingState::ArmedIdle && old(self).debounce().is_triggered(),
    {
        if self.open_requested {
            self.recorder.on_writer_opened(now_ms);
            self.open_requested = false;
        }
    }

    /// Reports that the current frame was written at `now_ms`.
    pub fn on_frame_written(&mut self, now_ms: u64)
        requires
            old(self).wf(),
        ensures
            final(self).wf(),
            final(self).debounce() == old(self).debounce(),
            final(self).meter() == old(self).meter(),
            final(self).open_requested() == old(self).open_requested(),
            old(self).recorder().state == RecordingState::Recording ==> final(self).recorder() == (
            RecordingController { mark_ms: now_ms, ..old(self).recorder() }),
            old(self).recorder().state != RecordingState::Recording ==> final(self).recorder()
                == old(self).recorder(),
    {
        self.recorder.on_frame_written(now_ms);
    }

    /// The phase of the recording session.
    pub fn state(&self) -> (r: RecordingState)
        ensures
            r == self.recorder().state,
    {
        self.recorder.state
    }

    /// Whether some channel currently has a sustained detection.
    pub fn triggered(&self) -> (r: bool)
        requires
            self.wf(),
        ensures
            r == self.debounce().is_triggered(),
    {
        self.debounce.triggered()
    }
}

} // verus!
