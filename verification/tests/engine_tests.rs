use emom::emomtimer::{Time, Timer};
use emom::engine::{App, BlinkState};

fn app_with(round_time: Time, current_time: Time, rounds: usize, current_round: usize) -> App {
    App {
        round_time,
        timer: Timer {
            current_time,
            rounds,
            current_round,
            running: false,
        },
        blink_state: BlinkState::Off,
        countdown_timer: None,
    }
}

#[test]
fn test_max_seconds() {
    let round_time = Time {
        seconds: 30,
        minutes: 1,
        tenths: 0,
    };
    let app = app_with(round_time, round_time, 1, 1);
    assert_eq!(app.max_seconds(), 60);
}

#[test]
fn test_max_seconds_zero() {
    let round_time = Time {
        seconds: 0,
        minutes: 0,
        tenths: 0,
    };
    let app = app_with(round_time, round_time, 1, 1);
    assert_eq!(app.max_seconds(), 1);
}

#[test]
fn test_max_seconds_one() {
    let round_time = Time {
        seconds: 1,
        minutes: 0,
        tenths: 0,
    };
    let app = app_with(round_time, round_time, 1, 1);
    assert_eq!(app.max_seconds(), 1);
}

#[test]
fn test_max_seconds_one_minute() {
    let round_time = Time {
        seconds: 0,
        minutes: 1,
        tenths: 0,
    };
    let app = app_with(round_time, round_time, 1, 1);
    assert_eq!(app.max_seconds(), 60);
}

#[test]
fn test_max_seconds_one_minute_one_second() {
    let round_time = Time {
        seconds: 1,
        minutes: 1,
        tenths: 0,
    };
    let app = app_with(round_time, round_time, 1, 1);
    assert_eq!(app.max_seconds(), 60);
}

#[test]
fn test_max_seconds_one_minute_one_second_one_tenth() {
    let round_time = Time {
        seconds: 1,
        minutes: 1,
        tenths: 1,
    };
    let app = app_with(round_time, round_time, 1, 1);
    assert_eq!(app.max_seconds(), 60);
}

#[test]
fn test_max_seconds_one_minute_one_tenth() {
    let round_time = Time {
        seconds: 0,
        minutes: 1,
        tenths: 1,
    };
    let app = app_with(round_time, round_time, 1, 1);
    assert_eq!(app.max_seconds(), 60);
}

#[test]
fn test_max_seconds_one_minute_one_tenth_zero_seconds() {
    let round_time = Time {
        seconds: 0,
        minutes: 1,
        tenths: 1,
    };
    let current_time = Time {
        seconds: 0,
        minutes: 1,
        tenths: 0,
    };
    let app = app_with(round_time, current_time, 1, 1);
    assert_eq!(app.max_seconds(), 60);
}

#[test]
fn test_red_blink_at_3_seconds() {
    let round_time = Time {
        seconds: 0,
        minutes: 1,
        tenths: 0,
    };
    let current_time = Time {
        seconds: 3,
        minutes: 0,
        tenths: 0,
    };
    let mut app = app_with(round_time, current_time, 10, 1);
    app.update_blink_state();
    assert_eq!(app.blink_state, BlinkState::Red);
}

#[test]
fn test_red_blink_at_3_seconds_middle() {
    let round_time = Time {
        seconds: 0,
        minutes: 1,
        tenths: 0,
    };
    let current_time = Time {
        seconds: 3,
        minutes: 0,
        tenths: 4,
    };
    let mut app = app_with(round_time, current_time, 10, 1);
    app.update_blink_state();
    assert_eq!(app.blink_state, BlinkState::Red);
}

#[test]
fn test_no_red_blink_at_3_seconds_late() {
    let round_time = Time {
        seconds: 0,
        minutes: 1,
        tenths: 0,
    };
    let current_time = Time {
        seconds: 3,
        minutes: 0,
        tenths: 5,
    };
    let mut app = app_with(round_time, current_time, 10, 1);
    app.update_blink_state();
    assert_eq!(app.blink_state, BlinkState::Off);
}

#[test]
fn test_red_blink_at_1_second() {
    let round_time = Time {
        seconds: 0,
        minutes: 1,
        tenths: 0,
    };
    let current_time = Time {
        seconds: 1,
        minutes: 0,
        tenths: 2,
    };
    let mut app = app_with(round_time, current_time, 10, 1);
    app.update_blink_state();
    assert_eq!(app.blink_state, BlinkState::Red);
}

#[test]
fn test_no_red_blink_at_0_seconds() {
    let round_time = Time {
        seconds: 0,
        minutes: 1,
        tenths: 0,
    };
    let current_time = Time {
        seconds: 0,
        minutes: 0,
        tenths: 5,
    };
    let mut app = app_with(round_time, current_time, 10, 1);
    app.update_blink_state();
    assert_eq!(app.blink_state, BlinkState::Off);
}

#[test]
fn test_no_green_blink_round_1() {
    let round_time = Time {
        seconds: 0,
        minutes: 1,
        tenths: 0,
    };
    let current_time = Time {
        seconds: 59,
        minutes: 0,
        tenths: 0,
    };
    let mut app = app_with(round_time, current_time, 10, 1);
    app.update_blink_state();
    assert_eq!(app.blink_state, BlinkState::Off);
}

#[test]
fn test_green_blink_at_59_seconds_round_2() {
    let round_time = Time {
        seconds: 0,
        minutes: 1,
        tenths: 0,
    };
    let current_time = Time {
        seconds: 59,
        minutes: 0,
        tenths: 0,
    };
    let mut app = app_with(round_time, current_time, 10, 2);
    app.update_blink_state();
    assert_eq!(app.blink_state, BlinkState::Green);
}

#[test]
fn test_green_blink_at_58_seconds_round_5() {
    let round_time = Time {
        seconds: 0,
        minutes: 1,
        tenths: 0,
    };
    let current_time = Time {
        seconds: 58,
        minutes: 0,
        tenths: 3,
    };
    let mut app = app_with(round_time, current_time, 10, 5);
    app.update_blink_state();
    assert_eq!(app.blink_state, BlinkState::Green);
}

#[test]
fn test_no_green_blink_at_60_seconds() {
    let round_time = Time {
        seconds: 0,
        minutes: 1,
        tenths: 0,
    };
    let current_time = Time {
        seconds: 0,
        minutes: 1,
        tenths: 0,
    };
    let mut app = app_with(round_time, current_time, 10, 2);
    app.update_blink_state();
    assert_eq!(app.blink_state, BlinkState::Off);
}

#[test]
fn test_no_green_blink_at_56_seconds() {
    let round_time = Time {
        seconds: 0,
        minutes: 1,
        tenths: 0,
    };
    let current_time = Time {
        seconds: 56,
        minutes: 0,
        tenths: 0,
    };
    let mut app = app_with(round_time, current_time, 10, 2);
    app.update_blink_state();
    assert_eq!(app.blink_state, BlinkState::Off);
}

#[test]
fn test_clear_blink_state() {
    let round_time = Time {
        seconds: 0,
        minutes: 1,
        tenths: 0,
    };
    let current_time = Time {
        seconds: 3,
        minutes: 0,
        tenths: 0,
    };
    let mut app = app_with(round_time, current_time, 10, 1);
    app.blink_state = BlinkState::Red;
    app.clear_blink_state();
    assert_eq!(app.blink_state, BlinkState::Off);
}

#[test]
fn test_no_blink_at_30_seconds() {
    let round_time = Time {
        seconds: 0,
        minutes: 1,
        tenths: 0,
    };
    let current_time = Time {
        seconds: 30,
        minutes: 0,
        tenths: 5,
    };
    let mut app = app_with(round_time, current_time, 10, 3);
    app.update_blink_state();
    assert_eq!(app.blink_state, BlinkState::Off);
}

#[test]
fn test_green_blink_at_57_seconds() {
    let round_time = Time {
        seconds: 0,
        minutes: 1,
        tenths: 0,
    };
    let current_time = Time {
        seconds: 57,
        minutes: 0,
        tenths: 4,
    };
    let mut app = app_with(round_time, current_time, 10, 2);
    app.update_blink_state();
    assert_eq!(app.blink_state, BlinkState::Green);
}

#[test]
fn test_red_blink_at_2_seconds() {
    let round_time = Time {
        seconds: 0,
        minutes: 1,
        tenths: 0,
    };
    let current_time = Time {
        seconds: 2,
        minutes: 0,
        tenths: 1,
    };
    let mut app = app_with(round_time, current_time, 10, 1);
    app.update_blink_state();
    assert_eq!(app.blink_state, BlinkState::Red);
}
