use vstd::prelude::*;

verus! {

/// Milliseconds from `since` to `now`, or zero where `now` is earlier.
pub open spec fn elapsed(since: u64, now: u64) -> int {
    if now >= since {
        now - since
    } else {
        0
    }
}

fn elapsed_ms(since: u64, now: u64) -> (r: u64)
    ensures
        r == elapsed(since, now),
{
    if now >= since {
        now - since
    } else {
        0
    }
}

/// Frames per second over fixed sampling windows: the count of the window under
/// way, the rate of the last finished window and of the one before it.
#[derive(Clone, Copy, Debug, PartialEq, Eq, Structural)]
pub struct ThroughputMeter {
    pub window_start_ms: u64,
    pub frame_count: u64,
    pub fps_current: u64,
    pub fps_previous: u64,
    pub sample_interval_secs: u64,
}

impl ThroughputMeter {
    /// A meter whose first window starts at `now_ms`, with both rates at
    /// `initial_fps`.
    pub fn new(sample_interval_secs: u64, initial_fps: u64, now_ms: u64) -> (m: ThroughputMeter)
        ensures
            m == (ThroughputMeter {
                window_start_ms: now_ms,
                frame_count: 0,
                fps_current: initial_fps,
                fps_previous: initial_fps,
                sample_interval_secs,
            }),
    {
        ThroughputMeter {
            window_start_ms: now_ms,
            frame_count: 0,
            fps_current: initial_fps,
            fps_previous: initial_fps,
            sample_interval_secs,
        }
    }

    /// The meter after one frame arrived at `now_ms`.
    pub open spec fn after_tick(self, now_ms: u64) -> ThroughputMeter {
        if elapsed(self.window_start_ms, now_ms) >= self.sample_interval_secs * 1000 {
            ThroughputMeter {
                window_start_ms: now_ms,
                frame_count: 0,
                fps_current: self.frame_count / self.sample_interval_secs,
                fps_previous: self.fps_current,
                ..self
            }
        } else if self.frame_count < u64::MAX {
            ThroughputMeter { frame_count: (self.frame_count + 1) as u64, ..self }
        } else {
            self
        }
    }

    /// Called once per frame. When the window has lasted the sampling interval,
    /// its rate (frames counted divided by whole seconds) becomes current, the
    /// current rate becomes previous, and a new window starts at `now_ms`.
    /// Otherwise the frame is counted.
    pub fn tick(&mut self, now_ms: u64)
        requires
            old(self).sample_interval_secs > 0,
        ensures
            *final(self) == old(self).after_tick(now_ms),
    {
        let e = elapsed_ms(self.window_start_ms, now_ms);
        assert(e / 1000 >= self.sample_interval_secs <==> e >= self.sample_interval_secs * 1000)
            by (nonlinear_arith)
            requires
                self.sample_interval_secs > 0,
        ;
        if e / 1000 >= self.sample_interval_secs {
            self.fps_previous = self.fps_current;
            self.fps_current = self.frame_count / self.sample_interval_secs;
            self.window_start_ms = now_ms;
            self.frame_count = 0;
        } else if self.frame_count < u64::MAX {
            self.frame_count = self.frame_count + 1;
        }
    }
}

/// The phase of a recording session.
#[derive(Clone, Copy, Debug, PartialEq, Eq, Structural)]
pub enum RecordingState {
    /// Not recording, and free to start.
    ArmedIdle,
    /// A writer is open and frames go to it.
    Recording,
    /// Not recording, and waiting out the quiet period before a new start.
    DisarmedCooldown,
}

/// What a new video writer is to be: the frame size, and the two most recent
/// throughput rates, whose mean is its frame rate.
#[derive(Clone, Copy, Debug, PartialEq, Eq, Structural)]
pub struct WriterParams {
    pub width: u32,
    pub height: u32,
    pub fps_current: u64,
    pub fps_previous: u64,
}

/// What the owner of the video writer is to do for the current frame.
#[derive(Clone, Copy, Debug, PartialEq, Eq, Structural)]
pub enum RecordingAction {
    Nothing,
    /// Open a writer; report success with `on_writer_opened`.
    OpenWriter(WriterParams),
    /// Write the current frame; report success with `on_frame_written`.
    WriteFrame,
    /// Close and drop the writer: the session is now in cooldown.
    CloseWriter,
    /// The quiet period is over: the session is armed again.
    Rearm,
}

/// The start/stop state machine of a recording session.
///
/// `mark_ms` is the time of the latest of these events: the creation of the
/// controller, the opening of the writer, a successful frame write, the entry
/// into cooldown. While recording, the stop interval is counted from it, so
/// from the last written frame, or from the opening before the first write.
#[derive(Clone, Copy, Debug, PartialEq, Eq, Structural)]
pub struct RecordingController {
    pub state: RecordingState,
    pub mark_ms: u64,
    pub stop_interval_ms: u64,
    pub rearm_interval_ms: u64,
}

impl RecordingController {
    /// An armed controller whose clock starts at `now_ms`.
    pub fn new(stop_interval_ms: u64, rearm_interval_ms: u64, now_ms: u64) -> (c:
        RecordingController)
        ensures
            c == (RecordingController {
                state: RecordingState::ArmedIdle,
                mark_ms: now_ms,
                stop_interval_ms,
                rearm_interval_ms,
            }),
    {
        RecordingController {
            state: RecordingState::ArmedIdle,
            mark_ms: now_ms,
            stop_interval_ms,
            rearm_interval_ms,
        }
    }

    /// The transition table: the controller and the action after one decoded
    /// frame at `now_ms`, given whether detection is sustained.
    pub open spec fn step(self, triggered: bool, params: WriterParams, now_ms: u64) -> (
        RecordingController,
        RecordingAction,
    ) {
        let e = elapsed(self.mark_ms, now_ms);
        match self.state {
            RecordingState::ArmedIdle => if triggered {
                (self, RecordingAction::OpenWriter(params))
            } else {
                (self, RecordingAction::Nothing)
            },
            RecordingState::Recording => if triggered {
                (self, RecordingAction::WriteFrame)
            } else if e >= self.stop_interval_ms {
                (
                    RecordingController {
                        state: RecordingState::DisarmedCooldown,
                        mark_ms: now_ms,
                        ..self
                    },
                    RecordingAction::CloseWriter,
                )
            } else {
                (self, RecordingAction::Nothing)
            },
            RecordingState::DisarmedCooldown => if e >= self.rearm_interval_ms {
                (RecordingController { state: RecordingState::ArmedIdle, ..self }, RecordingAction::Rearm)
            } else {
                (self, RecordingAction::Nothing)
            },
        }
    }

    /// The decision for one decoded frame, given whether detection is sustained.
    ///
    /// Armed, a sustained detection asks for a writer (the state changes only
    /// once it is open). Recording, a sustained detection writes the frame; with
    /// none, the session stops once the stop interval has passed since
    /// `mark_ms`. In cooldown, the session re-arms once the re-arm interval has
    /// passed since it stopped, whatever the detection.
    pub fn on_frame(&mut self, triggered: bool, params: WriterParams, now_ms: u64) -> (a:
        RecordingAction)
        ensures
            (*final(self), a) == old(self).step(triggered, params, now_ms),
    {
        let e = elapsed_ms(self.mark_ms, now_ms);
        match self.state {
            RecordingState::ArmedIdle => {
                if triggered {
                    RecordingAction::OpenWriter(params)
                } else {
                    RecordingAction::Nothing
                }
            },
            RecordingState::Recording => {
                if triggered {
                    RecordingAction::WriteFrame
                } else if e >= self.stop_interval_ms {
                    self.state = RecordingState::DisarmedCooldown;
                    self.mark_ms = now_ms;
                    RecordingAction::CloseWriter
                } else {
                    RecordingAction::Nothing
                }
            },
            RecordingState::DisarmedCooldown => {
                if e >= self.rearm_interval_ms {
                    self.state = RecordingState::ArmedIdle;
                    RecordingAction::Rearm
                } else {
                    RecordingAction::Nothing
                }
            },
        }
    }

    /// The writer asked for was opened at `now_ms`: an armed session starts
    /// recording, and the stop interval is counted from the opening.
    pub fn on_writer_opened(&mut self, now_ms: u64)
        ensures
            old(self).state == RecordingState::ArmedIdle ==> *final(self) == (RecordingController {
                state: RecordingState::Recording,
                mark_ms: now_ms,
                ..*old(self)
            }),
            old(self).state != RecordingState::ArmedIdle ==> *final(self) == *old(self),
    {
        if self.state == RecordingState::ArmedIdle {
            self.state = RecordingState::Recording;
            self.mark_ms = now_ms;
        }
    }

    /// A frame was written at `now_ms`: while recording, the mark moves there.
    pub fn on_frame_written(&mut self, now_ms: u64)
        ensures
            old(self).state == RecordingState::Recording ==> *final(self) == (RecordingController {
                mark_ms: now_ms,
                ..*old(self)
            }),
            old(self).state != RecordingState::Recording ==> *final(self) == *old(self),
    {
        if self.state == RecordingState::Recording {
            self.mark_ms = now_ms;
        }
    }
}

} // verus!
