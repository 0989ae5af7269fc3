//! A frame animator driven by the wall clock: it advances a frame counter
//! once per elapsed frame duration and tracks how often the animation has
//! repeated. The clock readings themselves come from `std::time`; the
//! counter arithmetic is what this module pins down.

use vstd::prelude::*;

use crate::entity::ServerAnimator;

verus! {

#[verifier::external_type_specification]
#[verifier::external_body]
pub struct ExInstant(std::time::Instant);

/// Relies on std::time::Instant::now: a reading of the monotonic clock.
/// Nothing is promised of its value.
pub assume_specification[ std::time::Instant::now ]() -> std::time::Instant;

/// Relies on std::time::Instant::duration_since: the time elapsed from
/// `earlier` to `self`, or zero if `earlier` is the later of the two.
/// Nothing is promised of its value.
pub assume_specification[ std::time::Instant::duration_since ](
    this: &std::time::Instant,
    earlier: std::time::Instant,
) -> std::time::Duration;

/// Relies on std::time::Duration::as_millis: the duration in whole
/// milliseconds. Nothing is promised of its value.
pub assume_specification[ std::time::Duration::as_millis ](
    this: &std::time::Duration,
) -> u128;

/// One timed step of the frame and repeat counters, given the animation
/// bounds: the frame advances while the animation still runs, and on
/// reaching the last frame the repeat counter grows and the frame wraps to
/// zero until the allowed repeats are used up. A negative `rp` means the
/// animation repeats indefinitely.
pub open spec fn spec_step_counters(cf: usize, cr: i8, tf: usize, rp: i8) -> (usize, i8) {
    let advanced = if cf < tf && (cr <= rp || rp < 0) {
        (cf + 1) as usize
    } else {
        cf
    };
    if advanced == tf {
        let repeated = if rp >= 0 && cr < i8::MAX {
            (cr + 1) as i8
        } else {
            cr
        };
        let wrapped = if repeated <= rp || rp < 0 {
            0
        } else {
            advanced
        };
        (wrapped, repeated)
    } else {
        (advanced, cr)
    }
}

/// Animation playback state. `repeat` is the number of times the animation
/// may restart after its first run; any negative number means it repeats
/// indefinitely. While `paused` is set the animator stands entirely still.
#[derive(Debug)]
pub struct Animator {
    pub current_frame: usize,
    pub total_frames: usize,
    pub current_time: Option<std::time::Instant>,
    pub frame_duration: std::time::Duration,
    pub current_repeat: i8,
    pub repeat: i8,
    pub paused: bool,
}

impl Animator {
    pub fn new(total_frames: usize, frame_duration: std::time::Duration, repeat: i8) -> (a:
        Animator)
        ensures
            a.current_frame == 0,
            a.total_frames == total_frames,
            a.current_time is None,
            a.frame_duration == frame_duration,
            a.current_repeat == 0,
            a.repeat == repeat,
            !a.paused,
    {
        Animator {
            current_frame: 0,
            total_frames,
            current_time: None,
            frame_duration,
            current_repeat: 0,
            repeat,
            paused: false,
        }
    }

    pub fn current_frame(&self) -> (r: usize)
        ensures
            r == self.current_frame,
    {
        self.current_frame
    }

    pub fn current_repeat(&self) -> (r: i8)
        ensures
            r == self.current_repeat,
    {
        self.current_repeat
    }

    pub fn max_repeats(&self) -> (r: i8)
        ensures
            r == self.repeat,
    {
        self.repeat
    }

    /// Advances the counters by one step if the animator is running and at
    /// least one frame duration has elapsed since the last advance;
    /// otherwise leaves them unchanged. A paused animator never moves at
    /// all; for a running one, which of the two happens depends on the
    /// clock, so the contract promises only that one of them does.
    pub fn update(&mut self)
        ensures
            final(self).total_frames == old(self).total_frames,
            final(self).frame_duration == old(self).frame_duration,
            final(self).repeat == old(self).repeat,
            final(self).paused == old(self).paused,
            old(self).paused ==> *final(self) == *old(self),
            (final(self).current_frame == old(self).current_frame && final(self).current_repeat
                == old(self).current_repeat) || (final(self).current_frame == spec_step_counters(
                old(self).current_frame,
                old(self).current_repeat,
                old(self).total_frames,
                old(self).repeat,
            ).0 && final(self).current_repeat == spec_step_counters(
                old(self).current_frame,
                old(self).current_repeat,
                old(self).total_frames,
                old(self).repeat,
            ).1),
    {
        if self.paused {
            return ;
        }

        let start: std::time::Instant = match self.current_time {
            Some(t) => t,
            None => {
                let t = std::time::Instant::now();
                self.current_time = Some(t);
                t
            },
        };

        let now = std::time::Instant::now();
        let since: std::time::Duration = now.duration_since(start);

        // is it time to change frames? if not, leave the counters alone
        if since.as_millis() < self.frame_duration.as_millis() {
            return ;
        }

        self.current_time = Some(std::time::Instant::now());
        if self.current_frame < self.total_frames && (self.current_repeat <= self.repeat
            || self.repeat < 0) {
            self.current_frame = self.current_frame + 1;
        }

        if self.current_frame == self.total_frames {
            if self.repeat >= 0 && self.current_repeat < i8::MAX {
                self.current_repeat = self.current_repeat + 1;
            }
            if self.current_repeat <= self.repeat || self.repeat < 0 {
                self.current_frame = 0;
            }
        }
    }

    /// Ends the animation and resets it to its starting state.
    pub fn end(&mut self)
        ensures
            final(self).current_frame == 0,
            final(self).current_time is None,
            final(self).current_repeat == 0,
            final(self).total_frames == old(self).total_frames,
            final(self).frame_duration == old(self).frame_duration,
            final(self).repeat == old(self).repeat,
            final(self).paused == old(self).paused,
    {
        self.current_frame = 0;
        self.current_time = None;
        self.current_repeat = 0;
    }

    /// Adopts the frame and repeat counters relayed by the server.
    pub fn update_from_server_animator(&mut self, server_animator: &ServerAnimator)
        requires
            server_animator.current_frame <= usize::MAX,
        ensures
            final(self).current_frame == server_animator.current_frame,
            final(self).current_repeat == server_animator.current_repeat,
            final(self).total_frames == old(self).total_frames,
            final(self).current_time == old(self).current_time,
            final(self).frame_duration == old(self).frame_duration,
            final(self).repeat == old(self).repeat,
            final(self).paused == old(self).paused,
    {
        self.current_frame = server_animator.current_frame();
        self.current_repeat = server_animator.current_repeat();
    }
}

} // verus!
