//! The self-correcting tick scheduler, as an explicit state machine.
//!
//! The machine owns the next deadline as an absolute wall-clock
//! timestamp in milliseconds and a counted tick total. The host hands
//! the current wall-clock time into every call: it sleeps until
//! `delay_until_next_tick` elapses, then calls `fire`, which advances
//! the deadline by a fixed interval from the previous deadline (not
//! from "now", so per-call jitter does not accumulate) and periodically
//! snaps the counted ticks back to what the elapsed wall-clock time
//! implies, bounding drift from an imprecise sleep.

use vstd::arithmetic::div_mod::lemma_div_nonincreasing;
use vstd::arithmetic::div_mod::lemma_fundamental_div_mod;
use vstd::arithmetic::div_mod::lemma_mod_division_less_than_divisor;
use vstd::prelude::*;

use crate::emomtimer::distance;

verus! {

/// Scheduler settings: the nominal tick interval, how many ticks pass
/// between wall-clock resynchronisation checks, and how many ticks of
/// divergence a check tolerates before it snaps the count.
#[derive(Debug, Clone, Copy)]
pub struct TimerConfig {
    pub interval_ms: u32,
    pub sync_interval_ticks: usize,
    pub sync_threshold_ticks: usize,
}

impl TimerConfig {
    /// The settings a config must keep for the machine to be able to
    /// divide by them: a positive interval and a positive check period.
    pub open spec fn wf(self) -> bool {
        self.interval_ms >= 1 && self.sync_interval_ticks >= 1
    }
}

/// The settings `TimerConfig::default` returns: a 100 ms tick, a
/// resynchronisation check every 10 ticks, tolerating 1 tick of drift.
pub open spec fn default_config() -> TimerConfig {
    TimerConfig { interval_ms: 100, sync_interval_ticks: 10, sync_threshold_ticks: 1 }
}

impl Default for TimerConfig {
    fn default() -> (c: Self)
        ensures
            c == default_config(),
            c.wf(),
    {
        Self { interval_ms: 100, sync_interval_ticks: 10, sync_threshold_ticks: 1 }
    }
}

/// The scheduler's state: whether it runs, how many ticks it has
/// counted, the next deadline, and when it started, the last three in
/// wall-clock milliseconds.
pub struct CountdownTimer {
    pub config: TimerConfig,
    pub running: bool,
    pub ticks_elapsed: usize,
    pub next_tick_time: u64,
    pub start_time: u64,
}

impl CountdownTimer {
    pub open spec fn wf(self) -> bool {
        self.config.wf()
    }

    pub fn new(config: TimerConfig) -> (t: Self)
        requires
            config.wf(),
        ensures
            t.wf(),
            t.config == config,
            !t.running,
            t.ticks_elapsed == 0,
            t.next_tick_time == 0,
            t.start_time == 0,
    {
        Self { config, running: false, ticks_elapsed: 0, next_tick_time: 0, start_time: 0 }
    }

    /// Start counting from `now_ms`: the first deadline falls one
    /// interval from now. Starting an already-running machine is a
    /// no-op.
    pub fn start(&mut self, now_ms: u64)
        requires
            old(self).wf(),
            now_ms + old(self).config.interval_ms <= u64::MAX,
        ensures
            final(self).wf(),
            final(self).config == old(self).config,
            old(self).running ==> *final(self) == *old(self),
            !old(self).running ==> final(self).running && final(self).ticks_elapsed == 0
                && final(self).start_time == now_ms && final(self).next_tick_time == now_ms + old(
                self,
            ).config.interval_ms,
    {
        if self.running {
            return;
        }
        self.running = true;
        self.ticks_elapsed = 0;
        self.start_time = now_ms;
        self.next_tick_time = now_ms + self.config.interval_ms as u64;
    }

    /// Stop counting; the host abandons any pending wake-up. The tick
    /// count and the timestamps stay readable.
    pub fn stop(&mut self)
        ensures
            !final(self).running,
            final(self).config == old(self).config,
            final(self).ticks_elapsed == old(self).ticks_elapsed,
            final(self).next_tick_time == old(self).next_tick_time,
            final(self).start_time == old(self).start_time,
    {
        self.running = false;
    }

    /// Stop counting and clear the count and the timestamps.
    pub fn reset(&mut self)
        ensures
            !final(self).running,
            final(self).config == old(self).config,
            final(self).ticks_elapsed == 0,
            final(self).next_tick_time == 0,
            final(self).start_time == 0,
    {
        self.running = false;
        self.ticks_elapsed = 0;
        self.next_tick_time = 0;
        self.start_time = 0;
    }

    pub fn elapsed_ticks(&self) -> (r: usize)
        ensures
            r == self.ticks_elapsed,
    {
        self.ticks_elapsed
    }

    pub fn is_running(&self) -> (r: bool)
        ensures
            r == self.running,
    {
        self.running
    }

    /// How long the host should sleep before calling `fire`: until the
    /// deadline, or not at all if the deadline has passed.
    pub fn delay_until_next_tick(&self, now_ms: u64) -> (d: u64)
        ensures
            self.next_tick_time > now_ms ==> d == self.next_tick_time - now_ms,
            self.next_tick_time <= now_ms ==> d == 0,
    {
        if self.next_tick_time > now_ms {
            self.next_tick_time - now_ms
        } else {
            0
        }
    }

    /// The tick count the elapsed wall-clock time implies.
    pub open spec fn expected_ticks_spec(self, now_ms: u64) -> int {
        (now_ms - self.start_time) as int / self.config.interval_ms as int
    }

    /// What `fire` leaves behind when the machine runs: the count goes
    /// up by one and the deadline moves one interval past the previous
    /// deadline; on every `sync_interval_ticks`-th count, if the count
    /// diverges from the wall-clock-implied count by more than
    /// `sync_threshold_ticks`, the count snaps to the implied value and
    /// the deadline is recomputed from the start time.
    pub open spec fn fire_spec(self, now_ms: u64) -> CountdownTimer {
        let counted = (self.ticks_elapsed + 1) as usize;
        let advanced = CountdownTimer {
            ticks_elapsed: counted,
            next_tick_time: (self.next_tick_time + self.config.interval_ms) as u64,
            ..self
        };
        if counted % self.config.sync_interval_ticks == 0 {
            let expected = self.expected_ticks_spec(now_ms);
            let diff = if expected > counted {
                expected - counted
            } else {
                counted - expected
            };
            if diff > self.config.sync_threshold_ticks {
                CountdownTimer {
                    ticks_elapsed: expected as usize,
                    next_tick_time: (self.start_time + (expected + 1)
                        * self.config.interval_ms) as u64,
                    ..advanced
                }
            } else {
                advanced
            }
        } else {
            advanced
        }
    }

    /// One firing of the scheduler at wall-clock time `now_ms`. Returns
    /// whether a tick is to be processed: a firing that arrives after
    /// the machine stopped changes nothing and reports false, so a
    /// stale wake-up is discarded rather than an error.
    pub fn fire(&mut self, now_ms: u64) -> (ticked: bool)
        requires
            old(self).wf(),
            old(self).running ==> now_ms >= old(self).start_time,
            old(self).running ==> now_ms + old(self).config.interval_ms <= u64::MAX,
            old(self).running ==> old(self).next_tick_time + old(self).config.interval_ms
                <= u64::MAX,
            old(self).running ==> old(self).ticks_elapsed < usize::MAX,
            old(self).running ==> old(self).expected_ticks_spec(now_ms) <= usize::MAX,
        ensures
            final(self).wf(),
            ticked == old(self).running,
            !old(self).running ==> *final(self) == *old(self),
            old(self).running ==> *final(self) == old(self).fire_spec(now_ms),
    {
        if !self.running {
            return false;
        }
        self.ticks_elapsed += 1;
        self.next_tick_time += self.config.interval_ms as u64;

        if self.ticks_elapsed % self.config.sync_interval_ticks == 0 {
            let elapsed_ms: u64 = now_ms - self.start_time;
            let interval: u64 = self.config.interval_ms as u64;
            let expected_ticks: u64 = elapsed_ms / interval;
            proof {
                let e = elapsed_ms as int;
                let iv = interval as int;
                lemma_fundamental_div_mod(e, iv);
                lemma_mod_division_less_than_divisor(e, iv);
                lemma_div_nonincreasing(e, iv);
                assert(iv * (e / iv) <= e);
                assert((e / iv + 1) * iv == iv * (e / iv) + iv) by (nonlinear_arith);
            }
            let tick_diff = distance(expected_ticks as usize, self.ticks_elapsed);

            if tick_diff > self.config.sync_threshold_ticks {
                self.ticks_elapsed = expected_ticks as usize;
                self.next_tick_time = self.start_time + (expected_ticks + 1) * interval;
            }
        }
        true
    }
}

} // verus!
