//! The countdown value and the round tracker.
//!
//! `Time` is a minutes/seconds/tenths triple that counts down in
//! tenth-of-second ticks and can be adjusted by one second, a quarter
//! minute, or a minute at a time. `Timer` tracks the round count and the
//! current round around a live `Time`.

use vstd::prelude::*;

verus! {

/// Commands a user interface forwards into the engine.
pub enum Msg {
    Start,
    Stop,
    Reset,
    IncrementSecond,
    DecrementSecond,
    IncrementQuarter,
    DecrementQuarter,
    IncrementRound,
    DecrementRound,
    Tick,
}

/// The default round duration is one minute, zero seconds.
pub const DEFAULT_MINUTES: usize = 1;

pub const DEFAULT_SECONDS: usize = 0;

/// The default cycle is five rounds.
pub const DEFAULT_ROUNDS: usize = 5;

/// A countdown value: whole minutes, seconds below a minute, and
/// tenths of a second.
#[derive(Debug, Clone, Copy, PartialEq, Eq, Structural)]
pub struct Time {
    pub seconds: usize,
    pub minutes: usize,
    pub tenths: usize,
}

impl Time {
    /// The field ranges every operation keeps: seconds stay below a
    /// minute, tenths below a second.
    pub open spec fn wf(self) -> bool {
        self.seconds < 60 && self.tenths < 10
    }

    pub open spec fn is_zero_spec(self) -> bool {
        self.seconds == 0 && self.minutes == 0 && self.tenths == 0
    }

    /// Whole seconds on the clock, tenths excluded.
    pub open spec fn total_seconds_spec(self) -> int {
        self.minutes * 60 + self.seconds
    }

    /// The value in tenths of a second, counting a minute as 600.
    pub open spec fn total_tenths(self) -> int {
        self.minutes * 600 + self.seconds * 10 + self.tenths
    }

    pub fn reset(&mut self)
        ensures
            final(self).seconds == DEFAULT_SECONDS,
            final(self).minutes == DEFAULT_MINUTES,
            final(self).tenths == 0,
            final(self).wf(),
    {
        self.seconds = DEFAULT_SECONDS;
        self.minutes = DEFAULT_MINUTES;
        self.tenths = 0;
    }

    /// True exactly when minutes, seconds and tenths are all zero.
    pub fn is_zero(&self) -> (r: bool)
        ensures
            r == self.is_zero_spec(),
    {
        self.seconds == 0 && self.minutes == 0 && self.tenths == 0
    }

    /// What `decrement_seconds` leaves behind: at zero nothing moves;
    /// at zero seconds the value borrows a minute and shows
    /// `max_seconds - 1`; otherwise one second comes off.
    pub open spec fn decrement_seconds_spec(self, max_seconds: usize) -> Time {
        if self.is_zero_spec() {
            self
        } else if self.seconds == 0 {
            Time {
                seconds: (max_seconds - 1) as usize,
                minutes: if self.minutes > 0 {
                    (self.minutes - 1) as usize
                } else {
                    self.minutes
                },
                tenths: self.tenths,
            }
        } else {
            Time { seconds: (self.seconds - 1) as usize, ..self }
        }
    }

    pub fn decrement_seconds(&mut self, max_seconds: usize)
        requires
            old(self).wf(),
            1 <= max_seconds <= 60,
        ensures
            *final(self) == old(self).decrement_seconds_spec(max_seconds),
            final(self).wf(),
    {
        if self.is_zero() {
            self.seconds = 0;
            self.minutes = 0;
            self.tenths = 0;
        } else if self.seconds == 0 {
            self.seconds = max_seconds - 1;
            self.decrement_minutes()
        } else {
            self.seconds -= 1;
        }
    }

    /// What `tick` leaves behind: at zero nothing moves; with tenths
    /// left one tenth comes off; otherwise a second is borrowed and the
    /// tenths wrap to 9, unless the borrow reached exact zero, in which
    /// case the tenths stay 0.
    pub open spec fn tick_spec(self, max_seconds: usize) -> Time {
        if self.is_zero_spec() {
            self
        } else if self.tenths > 0 {
            Time { tenths: (self.tenths - 1) as usize, ..self }
        } else {
            let borrowed = self.decrement_seconds_spec(max_seconds);
            if borrowed.is_zero_spec() {
                borrowed
            } else {
                Time { tenths: 9, ..borrowed }
            }
        }
    }

    /// Advance the countdown by one tenth of a second. `max_seconds` is
    /// the seconds-per-minute ceiling the caller computes from the
    /// configured round duration: 60 when minutes remain, else the
    /// configured seconds floored at 1.
    pub fn tick(&mut self, max_seconds: usize)
        requires
            old(self).wf(),
            1 <= max_seconds <= 60,
        ensures
            *final(self) == old(self).tick_spec(max_seconds),
            final(self).wf(),
            old(self).is_zero_spec() ==> *final(self) == *old(self),
    {
        if self.is_zero() {
            return;
        }
        // Decrement tenths first
        if self.tenths > 0 {
            self.tenths -= 1;
        } else {
            // tenths is 0, so we need to decrement seconds and wrap tenths to 9
            self.decrement_seconds(max_seconds);
            // Only set tenths to 9 if we didn't hit zero
            if !self.is_zero() {
                self.tenths = 9;
            }
        }
    }

    /// What `increment_seconds` leaves behind: one second more, carrying
    /// into the minutes at 60.
    pub open spec fn increment_seconds_spec(self) -> Time {
        if self.seconds == 59 {
            Time { seconds: 0, minutes: (self.minutes + 1) as usize, ..self }
        } else {
            Time { seconds: (self.seconds + 1) as usize, ..self }
        }
    }

    pub fn increment_seconds(&mut self)
        requires
            old(self).wf(),
            old(self).seconds == 59 ==> old(self).minutes < usize::MAX,
        ensures
            *final(self) == old(self).increment_seconds_spec(),
            final(self).wf(),
    {
        self.seconds += 1;
        if self.seconds == 60 {
            self.seconds = 0;
            self.increment_minutes()
        }
    }

    /// What `increment_quarter` leaves behind: fifteen seconds more,
    /// carrying into the minutes at 60.
    pub open spec fn increment_quarter_spec(self) -> Time {
        if self.seconds >= 45 {
            Time { seconds: (self.seconds - 45) as usize, minutes: (self.minutes + 1) as usize, ..self }
        } else {
            Time { seconds: (self.seconds + 15) as usize, ..self }
        }
    }

    pub fn increment_quarter(&mut self)
        requires
            old(self).wf(),
            old(self).seconds >= 45 ==> old(self).minutes < usize::MAX,
        ensures
            *final(self) == old(self).increment_quarter_spec(),
            final(self).wf(),
            final(self).tenths == old(self).tenths,
            old(self).seconds >= 45 ==> final(self).seconds == old(self).seconds - 45
                && final(self).minutes == old(self).minutes + 1,
            old(self).seconds < 45 ==> final(self).seconds == old(self).seconds + 15
                && final(self).minutes == old(self).minutes,
    {
        self.seconds += 15;
        if self.seconds >= 60 {
            self.seconds -= 60;
            self.increment_minutes();
        }
    }

    /// What `decrement_quarter` leaves behind: fifteen seconds less,
    /// borrowing a minute where one remains, and clamped to exact zero
    /// where less than fifteen seconds remain in all.
    pub open spec fn decrement_quarter_spec(self) -> Time {
        if self.minutes == 0 && self.seconds < 15 {
            Time { seconds: 0, minutes: 0, tenths: 0 }
        } else if self.seconds < 15 {
            Time { seconds: (self.seconds + 45) as usize, minutes: (self.minutes - 1) as usize, ..self }
        } else {
            Time { seconds: (self.seconds - 15) as usize, ..self }
        }
    }

    pub fn decrement_quarter(&mut self)
        requires
            old(self).wf(),
        ensures
            *final(self) == old(self).decrement_quarter_spec(),
            final(self).wf(),
            old(self).minutes == 0 && old(self).seconds < 15 ==> final(self).seconds == 0
                && final(self).minutes == 0 && final(self).tenths == 0,
            old(self).minutes > 0 && old(self).seconds < 15 ==> final(self).seconds
                == old(self).seconds + 45 && final(self).minutes == old(self).minutes - 1
                && final(self).tenths == old(self).tenths,
            old(self).seconds >= 15 ==> final(self).seconds == old(self).seconds - 15
                && final(self).minutes == old(self).minutes
                && final(self).tenths == old(self).tenths,
    {
        if self.minutes == 0 && self.seconds < 15 {
            self.seconds = 0;
            self.minutes = 0;
            self.tenths = 0;
        } else if self.seconds < 15 {
            self.seconds += 45;
            self.decrement_minutes();
        } else {
            self.seconds -= 15;
        }
    }

    pub fn increment_minutes(&mut self)
        requires
            old(self).minutes < usize::MAX,
        ensures
            final(self).minutes == old(self).minutes + 1,
            final(self).seconds == old(self).seconds,
            final(self).tenths == old(self).tenths,
    {
        self.minutes += 1;
    }

    /// Minutes come off one at a time, floor-clamped at 0.
    pub fn decrement_minutes(&mut self)
        ensures
            final(self).seconds == old(self).seconds,
            final(self).tenths == old(self).tenths,
            old(self).minutes > 0 ==> final(self).minutes == old(self).minutes - 1,
            old(self).minutes == 0 ==> final(self).minutes == 0,
    {
        if self.minutes > 0 {
            self.minutes -= 1;
        }
    }

    // ignoring tenths
    pub fn total_seconds(&self) -> (r: usize)
        requires
            self.total_seconds_spec() <= usize::MAX,
        ensures
            r == self.total_seconds_spec(),
    {
        self.seconds + self.minutes * 60
    }
}

/// The round tracker: the live countdown value, how many rounds were
/// configured, which round is under way, and whether the engine runs.
pub struct Timer {
    pub current_time: Time,
    pub rounds: usize,
    pub current_round: usize,
    pub running: bool,
}

impl Timer {
    /// The ranges the tracker keeps: a well-formed countdown value, at
    /// least one round, and a round index of at least 1.
    pub open spec fn wf(self) -> bool {
        self.current_time.wf() && self.rounds >= 1 && self.current_round >= 1
    }

    pub fn reset(&mut self)
        ensures
            final(self).current_time.seconds == DEFAULT_SECONDS,
            final(self).current_time.minutes == DEFAULT_MINUTES,
            final(self).current_time.tenths == 0,
            final(self).rounds == DEFAULT_ROUNDS,
            final(self).current_round == 1,
            !final(self).running,
            final(self).wf(),
    {
        self.current_time.reset();
        self.rounds = DEFAULT_ROUNDS;
        self.current_round = 1;
        self.running = false;
    }

    pub fn increment_rounds(&mut self)
        requires
            old(self).rounds < usize::MAX,
        ensures
            final(self).rounds == old(self).rounds + 1,
            final(self).current_time == old(self).current_time,
            final(self).current_round == old(self).current_round,
            final(self).running == old(self).running,
    {
        self.rounds += 1;
    }

    /// The round count comes down one at a time, floor-clamped at 1:
    /// there is never fewer than one round.
    pub fn decrement_rounds(&mut self)
        requires
            old(self).rounds >= 1,
        ensures
            old(self).rounds > 1 ==> final(self).rounds == old(self).rounds - 1,
            old(self).rounds == 1 ==> final(self).rounds == 1,
            final(self).current_time == old(self).current_time,
            final(self).current_round == old(self).current_round,
            final(self).running == old(self).running,
    {
        if self.rounds == 1 {
            self.rounds = 1;
        } else {
            self.rounds -= 1;
        }
    }
}

/// How far apart two values lie, whichever is larger.
pub fn distance(a: usize, b: usize) -> (r: usize)
    ensures
        a > b ==> r == a - b,
        a <= b ==> r == b - a,
{
    if a > b {
        a - b
    } else {
        b - a
    }
}

/// `tick_spec` applied `n` times over.
pub open spec fn tick_iter_spec(t: Time, max_seconds: usize, n: nat) -> Time
    decreases n,
{
    if n == 0 {
        t
    } else {
        tick_iter_spec(t.tick_spec(max_seconds), max_seconds, (n - 1) as nat)
    }
}

/// Each tick off a non-zero value takes at least one tenth off the
/// total, and never moves minutes up, provided `max_seconds` is the
/// ceiling the caller computes: 60 whenever minutes remain.
proof fn lemma_tick_decreases(t: Time, max_seconds: usize)
    requires
        t.wf(),
        1 <= max_seconds <= 60,
        t.minutes > 0 ==> max_seconds == 60,
    ensures
        t.tick_spec(max_seconds).wf(),
        t.tick_spec(max_seconds).minutes <= t.minutes,
        !t.is_zero_spec() ==> t.tick_spec(max_seconds).total_tenths() < t.total_tenths(),
        t.is_zero_spec() ==> t.tick_spec(max_seconds) == t,
{
}

/// Ticking any well-formed value `n` times, for any `n` at least its
/// total tenths, reaches exactly zero, and a further tick is a no-op.
/// `max_seconds` is the ceiling the caller computes from the value: 60
/// whenever minutes remain.
pub proof fn lemma_tick_reaches_zero(t: Time, max_seconds: usize, n: nat)
    requires
        t.wf(),
        1 <= max_seconds <= 60,
        t.minutes > 0 ==> max_seconds == 60,
        n >= t.total_tenths(),
    ensures
        tick_iter_spec(t, max_seconds, n).is_zero_spec(),
        tick_iter_spec(t, max_seconds, n).tick_spec(max_seconds) == tick_iter_spec(
            t,
            max_seconds,
            n,
        ),
    decreases n,
{
    lemma_tick_decreases(t, max_seconds);
    if n == 0 {
    } else {
        let t1 = t.tick_spec(max_seconds);
        assert(t1.minutes > 0 ==> max_seconds == 60);
        lemma_tick_reaches_zero(t1, max_seconds, (n - 1) as nat);
    }
}

/// Round trip: adding a second and then taking one off restores the
/// starting value, with the 60-second ceiling that the carry into
/// minutes implies.
pub proof fn lemma_increment_then_decrement_seconds(t: Time)
    requires
        t.wf(),
        t.seconds == 59 ==> t.minutes < usize::MAX,
    ensures
        t.increment_seconds_spec().decrement_seconds_spec(60) == t,
{
}

} // verus!
