//! The engine around the round tracker: command dispatch, the per-tick
//! step with its round-boundary handling, and the blink-cue derivation.
//!
//! The engine is pure state plus transition functions. A presentation
//! layer renders the public fields, forwards user commands as `Msg`
//! values, and drives the owned `CountdownTimer` against the host's
//! clock and sleep, handing the wall-clock time in as an argument.

use vstd::prelude::*;

use crate::countdown_timer::default_config;
use crate::countdown_timer::CountdownTimer;
use crate::countdown_timer::TimerConfig;
use crate::emomtimer::Msg;
use crate::emomtimer::Time;
use crate::emomtimer::Timer;
use crate::emomtimer::DEFAULT_MINUTES;
use crate::emomtimer::DEFAULT_ROUNDS;
use crate::emomtimer::DEFAULT_SECONDS;

verus! {

/// How many seconds of blinking each cue shows at a round's start and
/// at its end.
pub const BLINKED_COUNT: usize = 3;

/// The visual cue: red near a round's end, green just after a round's
/// start, otherwise none.
#[derive(Debug, Clone, Copy, PartialEq, Eq, Structural)]
pub enum BlinkState {
    Red,
    Green,
    Off,
}

/// The blink cue for a countdown position, as a pure function of the
/// live value, the configured round duration and the round index.
/// Rounds too short for a full blink cycle show nothing; the green
/// start-of-round cue never shows on the first round; both cues show
/// only in the first half of each second (tenths at most 4).
pub open spec fn blink_spec(current_time: Time, round_time: Time, current_round: usize) -> BlinkState {
    let total_seconds = current_time.total_seconds_spec();
    let round_seconds = round_time.total_seconds_spec();
    if round_seconds <= 2 * BLINKED_COUNT + 1 {
        BlinkState::Off
    } else if current_round > 1 && total_seconds > round_seconds - (BLINKED_COUNT + 1)
        && total_seconds < round_seconds && current_time.tenths <= 4 {
        BlinkState::Green
    } else if total_seconds > 0 && total_seconds <= BLINKED_COUNT && current_time.tenths <= 4 {
        BlinkState::Red
    } else {
        BlinkState::Off
    }
}

/// The countdown value a round starts from: one tick less than the
/// configured duration, so the display visibly moves on the first tick
/// rather than sitting at the full value for a whole interval.
pub open spec fn start_adjust_spec(t: Time) -> Time {
    if t.tenths > 0 {
        Time { tenths: (t.tenths - 1) as usize, ..t }
    } else if t.seconds > 0 {
        Time { seconds: (t.seconds - 1) as usize, tenths: 9, ..t }
    } else if t.minutes > 0 {
        Time { minutes: (t.minutes - 1) as usize, seconds: 59, tenths: 9 }
    } else {
        t
    }
}

/// The scheduler state right after a start at wall-clock time `now_ms`
/// with the default settings.
pub open spec fn started_scheduler_spec(now_ms: u64) -> CountdownTimer {
    CountdownTimer {
        config: default_config(),
        running: true,
        ticks_elapsed: 0,
        start_time: now_ms,
        next_tick_time: (now_ms + 100) as u64,
    }
}

/// The engine: the configured per-round duration, the round tracker
/// with the live countdown, the derived blink cue, and the tick
/// scheduler while one is armed.
pub struct App {
    pub round_time: Time,
    pub timer: Timer,
    pub blink_state: BlinkState,
    pub countdown_timer: Option<CountdownTimer>,
}

impl App {
    /// What every command keeps: well-formed times whose whole-second
    /// totals fit the machine word, at least one round, a round index
    /// of at least 1, and a well-formed scheduler while one is armed.
    pub open spec fn wf(self) -> bool {
        &&& self.round_time.wf()
        &&& self.round_time.total_seconds_spec() <= usize::MAX
        &&& self.timer.wf()
        &&& self.timer.current_time.total_seconds_spec() <= usize::MAX
        &&& (self.countdown_timer is Some ==> self.countdown_timer->0.wf())
    }

    /// The seconds-per-minute ceiling the countdown borrows at: 60 when
    /// the configured duration has whole minutes, else its configured
    /// seconds, floored at 1.
    pub open spec fn max_seconds_spec(self) -> usize {
        if self.round_time.minutes > 0 {
            60
        } else if self.round_time.seconds >= 1 {
            self.round_time.seconds
        } else {
            1
        }
    }

    pub fn max_seconds(&self) -> (r: usize)
        ensures
            r == self.max_seconds_spec(),
    {
        if self.round_time.minutes > 0 {
            60
        } else if self.round_time.seconds >= 1 {
            self.round_time.seconds
        } else {
            1
        }
    }

    pub fn new() -> (app: App)
        ensures
            app.wf(),
            app.round_time.minutes == DEFAULT_MINUTES,
            app.round_time.seconds == DEFAULT_SECONDS,
            app.round_time.tenths == 0,
            app.timer.current_time == app.round_time,
            app.timer.rounds == DEFAULT_ROUNDS,
            app.timer.current_round == 1,
            !app.timer.running,
            app.blink_state == BlinkState::Off,
            app.countdown_timer is None,
    {
        let time = Time { seconds: DEFAULT_SECONDS, minutes: DEFAULT_MINUTES, tenths: 0 };
        App {
            round_time: time,
            timer: Timer { current_time: time, rounds: DEFAULT_ROUNDS, current_round: 1, running: false },
            blink_state: BlinkState::Off,
            countdown_timer: None,
        }
    }

    /// What `start` leaves behind: a running engine counting down from
    /// one tick less than the configured duration, the round index
    /// wrapped to 1 where the previous cycle had finished, and a
    /// freshly started scheduler. Starting a running engine changes
    /// nothing.
    pub open spec fn start_spec(self, now_ms: u64) -> App {
        if self.timer.running {
            self
        } else {
            App {
                timer: Timer {
                    current_time: start_adjust_spec(self.round_time),
                    current_round: if self.timer.current_round >= self.timer.rounds {
                        1usize
                    } else {
                        self.timer.current_round
                    },
                    running: true,
                    ..self.timer
                },
                countdown_timer: Some(started_scheduler_spec(now_ms)),
                ..self
            }
        }
    }

    pub fn start(&mut self, now_ms: u64)
        requires
            old(self).wf(),
            now_ms + 100 <= u64::MAX,
        ensures
            final(self).wf(),
            *final(self) == old(self).start_spec(now_ms),
    {
        if self.timer.running {
            return;
        }

        if self.timer.current_round >= self.timer.rounds {
            self.timer.current_round = 1;
        }

        // Adjust display to one tick before configured time when starting
        // This ensures we count from 59.9 -> 0.0 for a 60 second timer
        self.timer.current_time = self.round_time;
        if self.timer.current_time.tenths > 0 {
            self.timer.current_time.tenths -= 1;
        } else if self.timer.current_time.seconds > 0 {
            self.timer.current_time.seconds -= 1;
            self.timer.current_time.tenths = 9;
        } else if self.timer.current_time.minutes > 0 {
            self.timer.current_time.minutes -= 1;
            self.timer.current_time.seconds = 59;
            self.timer.current_time.tenths = 9;
        }

        self.timer.running = true;

        let config = TimerConfig::default();
        let mut countdown_timer = CountdownTimer::new(config);
        countdown_timer.start(now_ms);
        self.countdown_timer = Some(countdown_timer);
    }

    /// What `cancel` (and `stop`) leave behind: the scheduler disarmed,
    /// the running flag down, the blink cue cleared, everything else as
    /// it was.
    pub open spec fn cancel_spec(self) -> App {
        App {
            timer: Timer { running: false, ..self.timer },
            blink_state: BlinkState::Off,
            countdown_timer: None,
            ..self
        }
    }

    pub fn cancel(&mut self)
        requires
            old(self).wf(),
        ensures
            final(self).wf(),
            *final(self) == old(self).cancel_spec(),
    {
        self.countdown_timer = None;
        self.timer.running = false;
        self.blink_state = BlinkState::Off;
    }

    pub fn stop(&mut self)
        requires
            old(self).wf(),
        ensures
            final(self).wf(),
            *final(self) == old(self).cancel_spec(),
    {
        self.cancel();
    }

    /// What `reset` leaves behind: the scheduler disarmed and both the
    /// configured duration and the tracker back at their defaults.
    pub fn reset(&mut self)
        requires
            old(self).wf(),
        ensures
            final(self).wf(),
            final(self).countdown_timer is None,
            final(self).blink_state == BlinkState::Off,
            final(self).round_time.minutes == DEFAULT_MINUTES,
            final(self).round_time.seconds == DEFAULT_SECONDS,
            final(self).round_time.tenths == 0,
            final(self).timer.current_time == final(self).round_time,
            final(self).timer.rounds == DEFAULT_ROUNDS,
            final(self).timer.current_round == 1,
            !final(self).timer.running,
    {
        self.countdown_timer = None;
        self.round_time.reset();
        self.timer.reset();
        self.blink_state = BlinkState::Off;
    }

    pub fn clear_blink_state(&mut self)
        ensures
            final(self).blink_state == BlinkState::Off,
            final(self).round_time == old(self).round_time,
            final(self).timer == old(self).timer,
            final(self).countdown_timer == old(self).countdown_timer,
    {
        self.blink_state = BlinkState::Off;
    }

    /// Recompute the blink cue from the live countdown position.
    pub fn update_blink_state(&mut self)
        requires
            old(self).wf(),
        ensures
            final(self).wf(),
            final(self).blink_state == blink_spec(
                old(self).timer.current_time,
                old(self).round_time,
                old(self).timer.current_round,
            ),
            final(self).round_time == old(self).round_time,
            final(self).timer == old(self).timer,
            final(self).countdown_timer == old(self).countdown_timer,
    {
        let total_seconds = self.timer.current_time.total_seconds();
        let round_seconds = self.round_time.total_seconds();
        let tenths = self.timer.current_time.tenths;

        // Only blink if round is long enough
        // Otherwise the blinking is too constant and distracting
        // this actually blinks 3 times starting
        // 3 times ending - so you need at least 7 seconds to
        // see all the blinking
        if round_seconds <= 2 * BLINKED_COUNT + 1 {
            self.blink_state = BlinkState::Off;
            return;
        }

        // Blink green at 1, 2, and 3 second marks after round starts
        // Only after round 1 has started
        // E.g., for 60 seconds: blink at 59, 58, 57 (when 1, 2, 3 seconds have elapsed)
        // Blink for 0.5 seconds (tenths 0-4) at the start of each second
        if self.timer.current_round > 1 && total_seconds > round_seconds - (BLINKED_COUNT + 1)
            && total_seconds < round_seconds && tenths <= 4 {
            self.blink_state = BlinkState::Green;
        } else if total_seconds > 0 && total_seconds <= BLINKED_COUNT && tenths <= 4 {
            // Blink red at the end of the round (last 3 seconds)
            // Blink for 0.5 seconds (tenths 0-4) at seconds 3, 2, 1
            self.blink_state = BlinkState::Red;
        } else {
            self.blink_state = BlinkState::Off;
        }
    }

    /// What the round boundary leaves behind. On the last round the
    /// live value is restored to the full configured duration and the
    /// engine stops; otherwise the next round begins at one tick less
    /// than the configured duration and the round index moves up.
    pub open spec fn end_of_round_spec(self) -> App {
        if self.timer.current_round >= self.timer.rounds {
            App {
                timer: Timer { current_time: self.round_time, running: false, ..self.timer },
                blink_state: BlinkState::Off,
                countdown_timer: None,
                ..self
            }
        } else {
            App {
                timer: Timer {
                    current_time: self.round_time.tick_spec(self.max_seconds_spec()),
                    current_round: (self.timer.current_round + 1) as usize,
                    ..self.timer
                },
                blink_state: BlinkState::Off,
                ..self
            }
        }
    }

    pub fn tick_update_end_of_round(&mut self)
        requires
            old(self).wf(),
        ensures
            final(self).wf(),
            *final(self) == old(self).end_of_round_spec(),
    {
        if self.timer.current_round >= self.timer.rounds {
            // Last round - reset to full configured time
            self.timer.current_time = self.round_time;
            self.blink_state = BlinkState::Off;
            self.cancel();
        } else {
            // Not the last round - start next round at one tick before configured time
            self.timer.current_time = self.round_time;
            if self.timer.current_time.tenths > 0 {
                self.timer.current_time.tenths -= 1;
            } else {
                // If tenths is 0, we need to borrow from seconds
                let max_seconds = self.max_seconds();
                self.timer.current_time.decrement_seconds(max_seconds);
                if !self.timer.current_time.is_zero() {
                    self.timer.current_time.tenths = 9;
                }
            }
            self.timer.current_round += 1;
            self.blink_state = BlinkState::Off;
        }
    }

    /// What one tick leaves behind: nothing while the engine is
    /// stopped (a stale firing is discarded); otherwise the countdown
    /// moves one tenth, a value that reached zero crosses the round
    /// boundary, and otherwise the blink cue is recomputed.
    pub open spec fn tick_step_spec(self) -> App {
        if !self.timer.running {
            self
        } else {
            let ticked = self.timer.current_time.tick_spec(self.max_seconds_spec());
            let mid = App { timer: Timer { current_time: ticked, ..self.timer }, ..self };
            if ticked.is_zero_spec() {
                mid.end_of_round_spec()
            } else {
                App {
                    blink_state: blink_spec(ticked, self.round_time, self.timer.current_round),
                    ..mid
                }
            }
        }
    }

    pub fn tick(&mut self)
        requires
            old(self).wf(),
        ensures
            final(self).wf(),
            *final(self) == old(self).tick_step_spec(),
    {
        // Ignore ticks if timer is not running (prevents race conditions with old timeouts)
        if !self.timer.running {
            return;
        }

        // Perform smooth tick countdown
        let max_seconds = self.max_seconds();
        self.timer.current_time.tick(max_seconds);

        // Handle end of round
        if self.timer.current_time.is_zero() {
            self.tick_update_end_of_round();
        } else {
            self.update_blink_state();
        }
    }

    /// What adjusting the configured duration leaves behind: the new
    /// duration, copied into the live countdown at once (adjustments
    /// while running overwrite the in-progress round immediately), with
    /// the blink cue cleared.
    pub open spec fn adjust_round_time_spec(self, new_round_time: Time) -> App {
        App {
            round_time: new_round_time,
            timer: Timer { current_time: new_round_time, ..self.timer },
            blink_state: BlinkState::Off,
            ..self
        }
    }

    /// What one command leaves behind, for every command the engine
    /// takes. `now_ms` matters only to `Start`, which arms the
    /// scheduler at the current wall-clock time.
    pub open spec fn step_spec(self, msg: Msg, now_ms: u64) -> App {
        match msg {
            Msg::Start => if self.countdown_timer is None {
                self.start_spec(now_ms)
            } else {
                self
            },
            Msg::Stop => self.cancel_spec(),
            Msg::Tick => self.tick_step_spec(),
            Msg::Reset => App {
                round_time: Time { seconds: DEFAULT_SECONDS, minutes: DEFAULT_MINUTES, tenths: 0 },
                timer: Timer {
                    current_time: Time {
                        seconds: DEFAULT_SECONDS,
                        minutes: DEFAULT_MINUTES,
                        tenths: 0,
                    },
                    rounds: DEFAULT_ROUNDS,
                    current_round: 1,
                    running: false,
                },
                blink_state: BlinkState::Off,
                countdown_timer: None,
            },
            Msg::IncrementRound => App {
                timer: Timer { rounds: (self.timer.rounds + 1) as usize, ..self.timer },
                blink_state: BlinkState::Off,
                ..self
            },
            Msg::DecrementRound => App {
                timer: Timer {
                    rounds: if self.timer.rounds > 1 {
                        (self.timer.rounds - 1) as usize
                    } else {
                        1usize
                    },
                    ..self.timer
                },
                blink_state: BlinkState::Off,
                ..self
            },
            Msg::IncrementSecond => self.adjust_round_time_spec(
                self.round_time.increment_seconds_spec(),
            ),
            Msg::DecrementSecond => self.adjust_round_time_spec(
                self.round_time.decrement_seconds_spec(self.max_seconds_spec()),
            ),
            Msg::IncrementQuarter => self.adjust_round_time_spec(
                self.round_time.increment_quarter_spec(),
            ),
            Msg::DecrementQuarter => self.adjust_round_time_spec(
                self.round_time.decrement_quarter_spec(),
            ),
        }
    }

    /// Dispatch one command. Returns whether the view must be redrawn,
    /// which every command asks for.
    pub fn update(&mut self, msg: Msg, now_ms: u64) -> (render: bool)
        requires
            old(self).wf(),
            msg is Start ==> now_ms + 100 <= u64::MAX,
            msg is IncrementRound ==> old(self).timer.rounds < usize::MAX,
            msg is IncrementSecond ==> old(self).round_time.total_seconds_spec() + 1 <= usize::MAX,
            msg is IncrementQuarter ==> old(self).round_time.total_seconds_spec() + 15
                <= usize::MAX,
        ensures
            final(self).wf(),
            *final(self) == old(self).step_spec(msg, now_ms),
            render,
    {
        match msg {
            Msg::Start => {
                if self.countdown_timer.is_none() {
                    self.start(now_ms);
                }
                true
            },
            Msg::Stop => {
                self.stop();
                true
            },
            Msg::Tick => {
                self.tick();
                true
            },
            Msg::Reset => {
                self.reset();
                true
            },
            Msg::IncrementRound => {
                self.timer.increment_rounds();
                self.clear_blink_state();
                true
            },
            Msg::DecrementRound => {
                self.timer.decrement_rounds();
                self.clear_blink_state();
                true
            },
            Msg::IncrementSecond => {
                self.round_time.increment_seconds();
                self.timer.current_time = self.round_time;
                self.clear_blink_state();
                true
            },
            Msg::DecrementSecond => {
                let max_seconds = self.max_seconds();
                self.round_time.decrement_seconds(max_seconds);
                self.timer.current_time = self.round_time;
                self.clear_blink_state();
                true
            },
            Msg::IncrementQuarter => {
                self.round_time.increment_quarter();
                self.timer.current_time = self.round_time;
                self.clear_blink_state();
                true
            },
            Msg::DecrementQuarter => {
                self.round_time.decrement_quarter();
                self.timer.current_time = self.round_time;
                self.clear_blink_state();
                true
            },
        }
    }
}

} // verus!
