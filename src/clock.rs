//! The playback clock: which decoder tick was current at which wall-clock
//! instant, and when a frame is due from there.

use vstd::prelude::*;
use crate::events::{InputEvent, is_quit, has_quit, resized_before_quit};

verus! {

const NANOS_PER_SECOND: i128 = 1_000_000_000;

/// Relies on clock_ticks::precise_time_ns, which reads the system clock in
/// nanoseconds. Nothing is promised of the value.
#[verifier::external_body]
fn precise_time_ns() -> (r: u64) {
    clock_ticks::precise_time_ns()
}

/// A span of `delta` decoder ticks, at `ticks_per_second`, in nanoseconds,
/// truncated towards zero.
pub open spec fn ticks_to_ns(delta: int, ticks_per_second: int) -> int {
    if delta >= 0 {
        delta * 1_000_000_000 / ticks_per_second
    } else {
        -((-delta) * 1_000_000_000 / ticks_per_second)
    }
}

/// Nanoseconds to wait at `now` for an instant `target`: none once it has
/// passed, and at most `u64::MAX`.
pub open spec fn wait_ns(target: int, now: int) -> int {
    if target <= now {
        0
    } else if target - now > u64::MAX {
        u64::MAX as int
    } else {
        target - now
    }
}

/// The anchor of playback: the decoder tick that was current at a known
/// wall-clock instant.
#[derive(Clone, Copy, Debug, PartialEq, Eq, Structural)]
pub struct ExampleMediaPlayer {
    /// Decoder tick at the anchor.
    pub playback_start_ticks: i64,
    /// Wall-clock time of the anchor, in nanoseconds.
    pub playback_start_wallclock_time: u64,
}

impl ExampleMediaPlayer {
    /// The anchor after the events of one poll at wall-clock time `now`.
    pub open spec fn after_events(
        &self,
        events: Seq<InputEvent>,
        last_frame_ticks: Option<i64>,
        now: u64,
    ) -> ExampleMediaPlayer {
        if resized_before_quit(events) && last_frame_ticks is Some {
            ExampleMediaPlayer {
                playback_start_ticks: last_frame_ticks->0,
                playback_start_wallclock_time: now,
            }
        } else {
            *self
        }
    }

    /// Wall-clock instant, in nanoseconds, at which the frame with tick
    /// `frame_ticks` is due.
    pub open spec fn target_time(&self, frame_ticks: int, ticks_per_second: int) -> int {
        self.playback_start_wallclock_time + ticks_to_ns(
            frame_ticks - self.playback_start_ticks,
            ticks_per_second,
        )
    }

    /// Playback anchored at tick zero, at wall-clock time `now_ns`.
    pub fn starting_at(now_ns: u64) -> (r: ExampleMediaPlayer)
        ensures
            r.playback_start_ticks == 0,
            r.playback_start_wallclock_time == now_ns,
    {
        ExampleMediaPlayer { playback_start_ticks: 0, playback_start_wallclock_time: now_ns }
    }

    /// Playback anchored at tick zero, now.
    pub fn new() -> (r: ExampleMediaPlayer)
        ensures
            r.playback_start_ticks == 0,
    {
        ExampleMediaPlayer::starting_at(precise_time_ns())
    }

    /// Moves the anchor to tick `ticks` at wall-clock time `now_ns`.
    pub fn resync_at(&mut self, ticks: i64, now_ns: u64)
        ensures
            final(self).playback_start_ticks == ticks,
            final(self).playback_start_wallclock_time == now_ns,
    {
        self.playback_start_ticks = ticks;
        self.playback_start_wallclock_time = now_ns;
    }

    /// Moves the anchor to tick `ticks`, now.
    pub fn resync(&mut self, ticks: i64)
        ensures
            final(self).playback_start_ticks == ticks,
    {
        let now = precise_time_ns();
        self.resync_at(ticks, now);
    }

    /// Wall-clock instant, in nanoseconds, at which the frame with tick
    /// `frame_ticks` is due: the anchor's time plus the ticks since the
    /// anchor's tick.
    pub fn target_presentation_time(&self, frame_ticks: i64, ticks_per_second: u64) -> (r: i128)
        requires
            ticks_per_second > 0,
        ensures
            r == self.target_time(frame_ticks as int, ticks_per_second as int),
    {
        let delta: i128 = frame_ticks as i128 - self.playback_start_ticks as i128;
        let tps: i128 = ticks_per_second as i128;
        assert(-0x1_0000_0000_0000_0000 < delta < 0x1_0000_0000_0000_0000);
        let offset: i128 = if delta >= 0 {
            assert(0 <= delta * NANOS_PER_SECOND < 0x1_0000_0000_0000_0000 * 1_000_000_000)
                by (nonlinear_arith)
                requires
                    0 <= delta < 0x1_0000_0000_0000_0000,
                    NANOS_PER_SECOND == 1_000_000_000,
            ;
            let scaled: i128 = delta * NANOS_PER_SECOND;
            assert(0 <= scaled / tps <= scaled) by (nonlinear_arith)
                requires
                    0 <= scaled,
                    tps >= 1,
            ;
            scaled / tps
        } else {
            let magnitude: i128 = -delta;
            assert(0 <= magnitude * NANOS_PER_SECOND < 0x1_0000_0000_0000_0000 * 1_000_000_000)
                by (nonlinear_arith)
                requires
                    0 <= magnitude < 0x1_0000_0000_0000_0000,
                    NANOS_PER_SECOND == 1_000_000_000,
            ;
            let scaled: i128 = magnitude * NANOS_PER_SECOND;
            assert(0 <= scaled / tps <= scaled) by (nonlinear_arith)
                requires
                    0 <= scaled,
                    tps >= 1,
            ;
            -(scaled / tps)
        };
        self.playback_start_wallclock_time as i128 + offset
    }

    /// Nanoseconds to wait at wall-clock time `now_ns` before the frame with
    /// tick `frame_ticks` is due: zero for a frame already late, and at most
    /// `u64::MAX`.
    pub fn time_until(&self, frame_ticks: i64, ticks_per_second: u64, now_ns: u64) -> (r: u64)
        requires
            ticks_per_second > 0,
        ensures
            r == wait_ns(self.target_time(frame_ticks as int, ticks_per_second as int), now_ns as int),
    {
        let target = self.target_presentation_time(frame_ticks, ticks_per_second);
        let now = now_ns as i128;
        if target <= now {
            0
        } else if target - now > u64::MAX as i128 {
            u64::MAX
        } else {
            (target - now) as u64
        }
    }

    /// Handles the events of one poll at wall-clock time `now_ns`. Returns
    /// false when an event ends playback, and handles no event after it. A
    /// window resize before that moves the anchor to the tick of the last
    /// presented frame, where there is one.
    pub fn handle_events(
        &mut self,
        events: &Vec<InputEvent>,
        last_frame_ticks: Option<i64>,
        now_ns: u64,
    ) -> (r: bool)
        ensures
            r == !has_quit(events@),
            *final(self) == old(self).after_events(events@, last_frame_ticks, now_ns),
    {
        let ghost start = *self;
        let mut i: usize = 0;
        while i < events.len()
            invariant
                start == *old(self),
                i <= events@.len(),
                forall|j: int| 0 <= j < i ==> !is_quit(#[trigger] events@[j]),
                *self == (if (exists|k: int|
                    0 <= k < i && #[trigger] events@[k] == InputEvent::WindowResized)
                    && last_frame_ticks is Some {
                    ExampleMediaPlayer {
                        playback_start_ticks: last_frame_ticks->0,
                        playback_start_wallclock_time: now_ns,
                    }
                } else {
                    start
                }),
            decreases events@.len() - i,
        {
            let event = events[i];
            if event.is_quit() {
                assert(has_quit(events@));
                proof {
                    if resized_before_quit(events@) {
                        let k = choose|k: int|
                            0 <= k < events@.len() && #[trigger] events@[k]
                                == InputEvent::WindowResized && forall|j: int|
                                0 <= j < k ==> !is_quit(#[trigger] events@[j]);
                        assert(k != i);
                        if k > i {
                            assert(!is_quit(events@[i as int]));
                        }
                        assert(0 <= k < i && events@[k] == InputEvent::WindowResized);
                    }
                    if exists|k: int| 0 <= k < i && #[trigger] events@[k] == InputEvent::WindowResized {
                        let k = choose|k: int|
                            0 <= k < i && #[trigger] events@[k] == InputEvent::WindowResized;
                        assert(forall|j: int| 0 <= j < k ==> !is_quit(#[trigger] events@[j]));
                        assert(resized_before_quit(events@));
                    }
                }
                return false;
            }
            if event == InputEvent::WindowResized {
                if let Some(t) = last_frame_ticks {
                    self.resync_at(t, now_ns);
                }
            }
            i += 1;
        }
        assert(!has_quit(events@));
        proof {
            if resized_before_quit(events@) {
                let k = choose|k: int|
                    0 <= k < events@.len() && #[trigger] events@[k] == InputEvent::WindowResized
                        && forall|j: int| 0 <= j < k ==> !is_quit(#[trigger] events@[j]);
                assert(events@[k] == InputEvent::WindowResized);
            }
            if exists|k: int| 0 <= k < i && #[trigger] events@[k] == InputEvent::WindowResized {
                let k = choose|k: int|
                    0 <= k < i && #[trigger] events@[k] == InputEvent::WindowResized;
                assert(forall|j: int| 0 <= j < k ==> !is_quit(#[trigger] events@[j]));
                assert(resized_before_quit(events@));
            }
        }
        true
    }

    /// Polls once: handles `events` as `handle_events` does, reading the
    /// clock for the new anchor.
    pub fn poll_events(&mut self, events: &Vec<InputEvent>, last_frame_ticks: Option<i64>) -> (r: bool)
        ensures
            r == !has_quit(events@),
            resized_before_quit(events@) && last_frame_ticks is Some ==> final(self).playback_start_ticks
                == last_frame_ticks->0,
            !(resized_before_quit(events@) && last_frame_ticks is Some) ==> *final(self) == *old(self),
    {
        let now = precise_time_ns();
        self.handle_events(events, last_frame_ticks, now)
    }
}

/// Anchored at tick zero, a frame is due its own tick's span after the
/// anchor's time; and the frame at the anchor's tick, as right after a
/// resync to that tick, is due exactly at the anchor's time.
pub proof fn lemma_target_from_anchor(p: ExampleMediaPlayer, tick: i64, ticks_per_second: u64)
    requires
        ticks_per_second > 0,
    ensures
        p.playback_start_ticks == 0 ==> p.target_time(tick as int, ticks_per_second as int)
            == p.playback_start_wallclock_time + ticks_to_ns(tick as int, ticks_per_second as int),
        p.target_time(p.playback_start_ticks as int, ticks_per_second as int)
            == p.playback_start_wallclock_time,
{
    assert(0int * 1_000_000_000 / (ticks_per_second as int) == 0);
}

} // verus!
