use vstd::prelude::*;

use crate::clock::{elapsed, wrapped_elapsed};

verus! {

/// Countdown ticks the relay stays on after a press.
pub const TIMER_TIME: i32 = 420;

/// Blocking delay that follows each countdown tick, in milliseconds.
pub const TICK_DELAY_MS: u32 = 1000;

/// The button is sampled only once more than this many milliseconds have passed.
pub const SAMPLE_INTERVAL_MS: u32 = 1;

/// State of the main loop.
#[derive(Clone, Copy, Debug, PartialEq, Eq, Structural)]
pub struct Controller {
    /// Countdown ticks left while armed.
    pub remaining: i32,
    /// Whether a countdown is running; the relay is on exactly then.
    pub armed: bool,
    /// Clock reading at the last button sample.
    pub last_sample: u32,
}

/// What the loop does after one iteration.
#[derive(Clone, Copy, Debug, PartialEq, Eq, Structural)]
pub struct Action {
    /// Level to drive the relay pin to.
    pub relay_high: bool,
    /// Milliseconds to busy-wait before the next iteration.
    pub delay_ms: u32,
}

impl Controller {
    /// Idle holds a full countdown; an armed countdown never goes below zero
    /// nor above its full length.
    pub open spec fn wf(self) -> bool {
        &&& 0 <= self.remaining <= TIMER_TIME
        &&& !self.armed ==> self.remaining == TIMER_TIME
    }

    /// Whether a loop iteration at `now` samples the button.
    pub open spec fn sample_due(self, now: u32) -> bool {
        wrapped_elapsed(self.last_sample, now) > SAMPLE_INTERVAL_MS
    }

    /// State after the button phase of an iteration at `now`; a press
    /// toggles between idle and armed, both with a full countdown.
    pub open spec fn after_sample(self, now: u32, pressed: bool) -> Controller {
        if !self.sample_due(now) {
            self
        } else if !pressed {
            Controller { remaining: self.remaining, armed: self.armed, last_sample: now }
        } else {
            Controller { remaining: TIMER_TIME, armed: !self.armed, last_sample: now }
        }
    }

    /// Whether the countdown phase ticks and then waits.
    pub open spec fn counts_down(self) -> bool {
        self.armed && self.remaining > 0
    }

    /// State after the countdown phase: an expired countdown disarms and
    /// is reset, a running one loses one tick.
    pub open spec fn after_countdown(self) -> Controller {
        if !self.armed {
            self
        } else if self.remaining <= 0 {
            Controller { remaining: TIMER_TIME, armed: false, last_sample: self.last_sample }
        } else {
            Controller {
                remaining: (self.remaining - 1) as i32,
                armed: true,
                last_sample: self.last_sample,
            }
        }
    }

    /// State after a whole loop iteration at `now`.
    pub open spec fn next(self, now: u32, pressed: bool) -> Controller {
        self.after_sample(now, pressed).after_countdown()
    }

    /// State after one loop iteration at each of `times`, with the button
    /// never pressed.
    pub open spec fn run_unpressed(self, times: Seq<u32>) -> Controller
        decreases times.len(),
    {
        if times.len() == 0 {
            self
        } else {
            self.next(times[0], false).run_unpressed(times.drop_first())
        }
    }

    /// Idle controller with a full countdown, as at power-up.
    pub fn new() -> (r: Controller)
        ensures
            r == (Controller { remaining: TIMER_TIME, armed: false, last_sample: 0 }),
            r.wf(),
    {
        Controller { remaining: TIMER_TIME, armed: false, last_sample: 0 }
    }

    /// Button phase: samples `pressed` if the sampling interval has passed
    /// since the last sample, and says whether it did.
    pub fn sample_button(&mut self, now: u32, pressed: bool) -> (sampled: bool)
        ensures
            sampled == old(self).sample_due(now),
            *final(self) == old(self).after_sample(now, pressed),
    {
        if elapsed(self.last_sample, now) > SAMPLE_INTERVAL_MS {
            self.last_sample = now;
            if pressed {
                self.armed = !self.armed;
                self.remaining = TIMER_TIME;
            }
            true
        } else {
            false
        }
    }

    /// Countdown phase: says whether a tick was counted, after which the
    /// loop waits.
    pub fn run_countdown(&mut self) -> (ticked: bool)
        ensures
            ticked == old(self).counts_down(),
            *final(self) == old(self).after_countdown(),
    {
        if self.armed {
            if self.remaining <= 0 {
                self.armed = false;
                self.remaining = TIMER_TIME;
                false
            } else {
                self.remaining = self.remaining - 1;
                true
            }
        } else {
            false
        }
    }

    /// One loop iteration at clock reading `now` with the button line read
    /// as `pressed`: the new state, the relay level and the delay to wait.
    pub fn step(&mut self, now: u32, pressed: bool) -> (r: Action)
        requires
            old(self).wf(),
        ensures
            *final(self) == old(self).next(now, pressed),
            final(self).wf(),
            r.relay_high == final(self).armed,
            r.delay_ms == if old(self).after_sample(now, pressed).counts_down() {
                TICK_DELAY_MS
            } else {
                0
            },
    {
        self.sample_button(now, pressed);
        let ticked = self.run_countdown();
        let delay_ms: u32 = if ticked {
            TICK_DELAY_MS
        } else {
            0
        };
        Action { relay_high: self.armed, delay_ms }
    }

    /// Level the relay pin is driven to.
    pub fn relay_high(&self) -> (r: bool)
        ensures
            r == self.armed,
    {
        self.armed
    }
}

/// Every loop iteration keeps the controller well formed, so the relay level,
/// which is `armed`, is always defined and an idle controller always holds a
/// full countdown.
pub proof fn lemma_next_preserves_wf(c: Controller, now: u32, pressed: bool)
    requires
        c.wf(),
    ensures
        c.next(now, pressed).wf(),
{
}

/// Of two iterations whose clock readings are less than the sampling
/// interval apart, at most one acts on the button: once an iteration has
/// sampled, the next one within the interval leaves the button phase alone.
pub proof fn lemma_close_samples_ignored(
    c: Controller,
    first: u32,
    second: u32,
    first_pressed: bool,
    second_pressed: bool,
)
    requires
        c.sample_due(first),
        wrapped_elapsed(first, second) < SAMPLE_INTERVAL_MS,
    ensures
        !c.next(first, first_pressed).sample_due(second),
        c.next(first, first_pressed).after_sample(second, second_pressed) == c.next(
            first,
            first_pressed,
        ),
{
}

/// An armed countdown with `remaining` ticks left, never interrupted by a
/// press, stays armed with the relay on through `remaining` iterations that
/// each count a tick, and the iteration after them disarms it and restores
/// the full countdown.
pub proof fn lemma_countdown_expires(c: Controller, times: Seq<u32>)
    requires
        c.wf(),
        c.armed,
        times.len() <= c.remaining + 1,
    ensures
        times.len() <= c.remaining ==> {
            &&& c.run_unpressed(times).armed
            &&& c.run_unpressed(times).remaining == c.remaining - times.len()
        },
        times.len() == c.remaining + 1 ==> {
            &&& !c.run_unpressed(times).armed
            &&& c.run_unpressed(times).remaining == TIMER_TIME
        },
    decreases times.len(),
{
    if times.len() > 0 {
        let n = c.next(times[0], false);
        if c.remaining > 0 {
            assert(c.after_sample(times[0], false).counts_down());
            lemma_countdown_expires(n, times.drop_first());
        } else {
            assert(times.drop_first().len() == 0);
        }
    }
}

} // verus!
