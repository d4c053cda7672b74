//! The decisions of the presentation loop. The loop itself, which decodes,
//! sleeps, presents and polls the window system, hands each outcome here as
//! an event and performs the action it gets back.

use vstd::prelude::*;
use crate::clock::{ExampleMediaPlayer, wait_ns};
use crate::events::{InputEvent, has_quit};

verus! {

/// Where playback stands.
#[derive(Clone, Copy, Debug, PartialEq, Eq, Structural)]
pub enum LoopState {
    /// Frames are being decoded and presented.
    Running,
    /// The stream ended or failed; what was queued is being played out.
    Draining,
    /// Playback is over.
    Stopped,
}

/// The outcome of the last action, as the loop observed it.
#[derive(Debug)]
pub enum LoopEvent {
    /// The decoder decoded the next unit. `next_frame_ticks` is the tick of
    /// the frame it will hand out, if the unit gave one; `now_ns` the
    /// wall-clock time in nanoseconds.
    Decoded { next_frame_ticks: Option<i64>, now_ns: u64 },
    /// Decoding failed or the stream ended.
    DecodeFailed,
    /// The decoder handed out a frame, with or without a picture and sound.
    Advanced { has_video: bool, has_audio: bool },
    /// Handing out the frame failed.
    AdvanceFailed,
    /// The window system was polled: the events it gave, the tick of the
    /// last presented frame, if any, and the wall-clock time in nanoseconds.
    Polled { events: Vec<InputEvent>, last_frame_ticks: Option<i64>, now_ns: u64 },
    /// The queued output has been played out.
    Drained,
}

/// What the loop is to do next.
#[derive(Clone, Copy, Debug, PartialEq, Eq, Structural)]
pub enum LoopAction {
    /// Decode the next unit.
    Decode,
    /// Sleep `wait_ns` nanoseconds, then take the decoded frame.
    WaitThenAdvance { wait_ns: u64 },
    /// Present the picture and queue the sound that are there, then poll
    /// the window system.
    Present { video: bool, audio: bool },
    /// Let the queued output play out.
    Drain,
    /// Leave the loop.
    Exit,
}

/// The state of the presentation loop.
#[derive(Clone, Copy, Debug, PartialEq, Eq, Structural)]
pub struct PresentationLoop {
    pub state: LoopState,
    /// The anchor that frames are paced against.
    pub clock: ExampleMediaPlayer,
    /// Decoder ticks per second.
    pub ticks_per_second: u64,
    /// Frames handed out for presentation so far (saturating).
    pub frames_presented: u64,
}

impl PresentationLoop {
    pub open spec fn wf(&self) -> bool {
        self.ticks_per_second > 0
    }

    /// The loop after `event`, and the action it asks for.
    pub open spec fn transition(self, event: LoopEvent) -> (PresentationLoop, LoopAction) {
        let stopped = PresentationLoop { state: LoopState::Stopped, ..self };
        match self.state {
            LoopState::Running => match event {
                LoopEvent::Decoded { next_frame_ticks, now_ns } => match next_frame_ticks {
                    Some(t) => (
                        self,
                        LoopAction::WaitThenAdvance {
                            wait_ns: wait_ns(
                                self.clock.target_time(t as int, self.ticks_per_second as int),
                                now_ns as int,
                            ) as u64,
                        },
                    ),
                    None => (self, LoopAction::Decode),
                },
                LoopEvent::DecodeFailed | LoopEvent::AdvanceFailed => (
                    PresentationLoop { state: LoopState::Draining, ..self },
                    LoopAction::Drain,
                ),
                LoopEvent::Advanced { has_video, has_audio } => (
                    PresentationLoop {
                        frames_presented: if self.frames_presented < u64::MAX {
                            (self.frames_presented + 1) as u64
                        } else {
                            self.frames_presented
                        },
                        ..self
                    },
                    LoopAction::Present { video: has_video, audio: has_audio },
                ),
                LoopEvent::Polled { events, last_frame_ticks, now_ns } => {
                    let clock = self.clock.after_events(events@, last_frame_ticks, now_ns);
                    if has_quit(events@) {
                        (PresentationLoop { state: LoopState::Stopped, clock, ..self }, LoopAction::Exit)
                    } else {
                        (PresentationLoop { clock, ..self }, LoopAction::Decode)
                    }
                },
                LoopEvent::Drained => (stopped, LoopAction::Exit),
            },
            LoopState::Draining | LoopState::Stopped => (stopped, LoopAction::Exit),
        }
    }

    /// A loop about to decode its first unit, pacing frames against `clock`.
    pub fn new(clock: ExampleMediaPlayer, ticks_per_second: u64) -> (r: PresentationLoop)
        requires
            ticks_per_second > 0,
        ensures
            r.wf(),
            r.state == LoopState::Running,
            r.clock == clock,
            r.ticks_per_second == ticks_per_second,
            r.frames_presented == 0,
    {
        PresentationLoop { state: LoopState::Running, clock, ticks_per_second, frames_presented: 0 }
    }

    /// The first action: decode while running, else leave.
    pub fn first_action(&self) -> (r: LoopAction)
        ensures
            r == (if self.state == LoopState::Running {
                LoopAction::Decode
            } else {
                LoopAction::Exit
            }),
    {
        if self.state == LoopState::Running {
            LoopAction::Decode
        } else {
            LoopAction::Exit
        }
    }

    /// Takes the outcome of the last action and decides the next one.
    pub fn step(&mut self, event: LoopEvent) -> (r: LoopAction)
        requires
            old(self).wf(),
        ensures
            final(self).wf(),
            (*final(self), r) == old(self).transition(event),
    {
        match self.state {
            LoopState::Running => {},
            LoopState::Draining | LoopState::Stopped => {
                self.state = LoopState::Stopped;
                return LoopAction::Exit;
            },
        }
        match event {
            LoopEvent::Decoded { next_frame_ticks, now_ns } => match next_frame_ticks {
                Some(t) => {
                    let wait = self.clock.time_until(t, self.ticks_per_second, now_ns);
                    LoopAction::WaitThenAdvance { wait_ns: wait }
                },
                None => LoopAction::Decode,
            },
            LoopEvent::DecodeFailed | LoopEvent::AdvanceFailed => {
                self.state = LoopState::Draining;
                LoopAction::Drain
            },
            LoopEvent::Advanced { has_video, has_audio } => {
                if self.frames_presented < u64::MAX {
                    self.frames_presented = self.frames_presented + 1;
                }
                LoopAction::Present { video: has_video, audio: has_audio }
            },
            LoopEvent::Polled { events, last_frame_ticks, now_ns } => {
                let keep_going = self.clock.handle_events(&events, last_frame_ticks, now_ns);
                if keep_going {
                    LoopAction::Decode
                } else {
                    self.state = LoopState::Stopped;
                    LoopAction::Exit
                }
            },
            LoopEvent::Drained => {
                self.state = LoopState::Stopped;
                LoopAction::Exit
            },
        }
    }
}

/// Once playback has stopped it stays stopped, and every event is answered
/// by leaving; a failure while running moves to draining, and from there
/// any event stops playback.
pub proof fn lemma_failures_end_playback(lp: PresentationLoop, event: LoopEvent, later: LoopEvent)
    ensures
        lp.state == LoopState::Stopped ==> lp.transition(event).0.state == LoopState::Stopped
            && lp.transition(event).1 == LoopAction::Exit,
        lp.state == LoopState::Running && (event is DecodeFailed || event is AdvanceFailed) ==> {
            let (next, action) = lp.transition(event);
            &&& next.state == LoopState::Draining
            &&& action == LoopAction::Drain
            &&& next.transition(later).0.state == LoopState::Stopped
            &&& next.transition(later).1 == LoopAction::Exit
        },
{
}

} // verus!
